use way_cooler_ipc::errors::CommandError;
use way_cooler_ipc::registry::{
    clients_read, clients_write, init, initial_registry, Category, Client, Clients, Permissions,
    Registry,
};

#[test]
fn init_creates_the_four_base_categories() {
    let (registry_lock, _clients) = init();
    let (registry, handle) = registry_lock.acquire_write();
    assert!(registry.has_category("windows"));
    assert!(registry.has_category("programs"));
    assert!(registry.has_category("mouse"));
    assert!(registry.has_category("screen"));
    assert!(!registry.has_category("keyboard"));
    handle.release_write(registry);
}

#[test]
fn startup_registry_holds_exactly_the_four_categories_each_empty() {
    let registry = initial_registry();
    assert_eq!(registry.categories.len(), 4);
    assert_eq!(registry.categories[0].name, "windows");
    assert_eq!(registry.categories[1].name, "programs");
    assert_eq!(registry.categories[2].name, "mouse");
    assert_eq!(registry.categories[3].name, "screen");
    for category in &registry.categories {
        assert!(category.entries.is_empty());
    }
}

#[test]
fn duplicate_category_fails_and_leaves_the_rest_unchanged() {
    let mut registry = Registry::new();
    assert_eq!(registry.add_category("windows".to_string()), Ok(()));
    assert_eq!(registry.add_category("mouse".to_string()), Ok(()));
    let r = registry.add_category("windows".to_string());
    assert_eq!(r, Err(CommandError::CategoryAlreadyExists("windows".to_string())));
    assert_eq!(registry.categories.len(), 2);
    assert!(registry.has_category("windows"));
    assert!(registry.has_category("mouse"));
}

#[test]
fn fresh_category_becomes_visible_to_lookups() {
    let mut registry = Registry::new();
    assert!(!registry.has_category("screen"));
    assert_eq!(registry.add_category("screen".to_string()), Ok(()));
    assert!(registry.has_category("screen"));
}

#[test]
fn category_entries_store_and_replace_values() {
    let mut c = Category { name: "mouse".to_string(), entries: vec![] };
    assert_eq!(c.get("speed"), None);
    c.set("speed".to_string(), "5".to_string());
    assert_eq!(c.get("speed"), Some("5".to_string()));
    c.set("accel".to_string(), "2".to_string());
    assert_eq!(c.get("speed"), Some("5".to_string()));
    assert_eq!(c.get("accel"), Some("2".to_string()));
    c.set("speed".to_string(), "9".to_string());
    assert_eq!(c.get("speed"), Some("9".to_string()));
    assert_eq!(c.get("accel"), Some("2".to_string()));
}

#[test]
fn clients_register_and_look_up_permissions() {
    let mut clients = Clients::new();
    let p = Permissions { read: true, write: false };
    assert!(clients.register(7, p));
    assert!(!clients.register(7, Permissions { read: true, write: true }));
    assert_eq!(clients.permissions_of(7), Some(p));
    assert_eq!(clients.permissions_of(8), None);
    assert!(clients.remove(7));
    assert!(!clients.remove(7));
    assert_eq!(clients.permissions_of(7), None);
}

#[test]
fn client_directory_guards_shared_and_exclusive_access() {
    let (_registry, directory) = init();
    let (mut clients, write_handle) = clients_write(&directory);
    assert!(clients.register(3, Permissions { read: true, write: true }));
    write_handle.release_write(clients);
    // two readers may hold the lock at once
    let h1 = clients_read(&directory);
    let h2 = clients_read(&directory);
    assert_eq!(h1.borrow().permissions_of(3), Some(Permissions { read: true, write: true }));
    assert_eq!(h2.borrow().permissions_of(3), Some(Permissions { read: true, write: true }));
    h1.release_read();
    h2.release_read();
    // and a writer may follow once they are gone
    let (clients, write_handle) = clients_write(&directory);
    assert_eq!(clients.clients.len(), 1);
    assert_eq!(clients.clients[0], Client { id: 3, permissions: Permissions { read: true, write: true } });
    write_handle.release_write(clients);
}
