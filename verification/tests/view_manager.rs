use iced_webview::engines::view_manager::ViewManager;

#[test]
fn empty_manager_has_no_views() {
    let m: ViewManager<u32> = ViewManager::default();
    assert_eq!(m.len(), 0);
    assert!(m.keys().is_empty());
    assert!(m.values().is_empty());
    assert!(m.iter().is_empty());
}

#[test]
fn get_after_insert_finds_the_view() {
    let mut m: ViewManager<&str> = ViewManager::default();
    let a = m.insert("first");
    assert!(m.contains(a));
    assert_eq!(m.get(a), Some(&"first"));
    assert_eq!(m.len(), 1);
}

#[test]
fn insert_then_remove_restores() {
    let mut m: ViewManager<String> = ViewManager::default();
    let a = m.insert("kept".to_string());
    let b = m.insert("gone".to_string());
    assert_ne!(a, b);
    assert_eq!(m.len(), 2);
    assert_eq!(m.remove(b), Some("gone".to_string()));
    assert!(!m.contains(b));
    assert_eq!(m.get(b), None);
    assert_eq!(m.get(a), Some(&"kept".to_string()));
    assert_eq!(m.len(), 1);
    assert_eq!(m.remove(b), None);
}

#[test]
fn unknown_id_gives_nothing() {
    let mut m: ViewManager<u8> = ViewManager::default();
    let a = m.insert(1);
    let unknown = a.wrapping_add(1);
    assert_eq!(m.get(unknown), None);
    assert!(m.get_mut(unknown).is_none());
    assert!(!m.contains(unknown));
    assert_eq!(m.remove(unknown), None);
    assert_eq!(m.len(), 1);
}

#[test]
fn get_mut_writes_through() {
    let mut m: ViewManager<u32> = ViewManager::default();
    let a = m.insert(10);
    *m.get_mut(a).unwrap() = 42;
    assert_eq!(m.get(a), Some(&42));
}

#[test]
fn keys_list_each_id_once() {
    let mut m: ViewManager<u32> = ViewManager::default();
    let mut ids = vec![m.insert(1), m.insert(2), m.insert(3)];
    let mut keys = m.keys();
    ids.sort();
    keys.sort();
    assert_eq!(keys, ids);
}

#[test]
fn values_and_iter_agree_with_get() {
    let mut m: ViewManager<u32> = ViewManager::default();
    let a = m.insert(5);
    let b = m.insert(7);
    let mut values: Vec<u32> = m.values().into_iter().copied().collect();
    values.sort();
    assert_eq!(values, vec![5, 7]);
    for (id, v) in m.iter() {
        assert_eq!(m.get(id), Some(v));
    }
    assert_eq!(m.iter().len(), 2);
    assert!(m.contains(a) && m.contains(b));
}

#[test]
fn values_mut_and_iter_mut_write_through() {
    let mut m: ViewManager<u32> = ViewManager::default();
    let a = m.insert(1);
    let b = m.insert(2);
    for v in m.values_mut() {
        *v *= 10;
    }
    assert_eq!(m.get(a), Some(&10));
    assert_eq!(m.get(b), Some(&20));
    for (id, v) in m.iter_mut() {
        *v = id as u32 % 1000 + 1;
    }
    assert_eq!(m.get(a), Some(&(a as u32 % 1000 + 1)));
    assert_eq!(m.len(), 2);
}
