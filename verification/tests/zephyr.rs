use zenyx::component::{Base, ExampleComponent};
use zenyx::hash_db::HashDb;

#[derive(Debug)]
struct MyCustomType(String);

#[test]
fn it_works() {
    let mut ecsdb = HashDb::new();
    ecsdb.insert("key1", "value1".to_string());
    ecsdb.insert("key2", MyCustomType("custom".to_string()));

    let value1 = ecsdb.get::<String>("key1");
    let value2 = ecsdb.get::<MyCustomType>("key2");

    println!("ecsdb string part: {:?}", value1);
    println!("ecsdb custom part: {:?}", value2);
}

#[test]
fn test_example_component() {
    let mut example = ExampleComponent::new();
    let _t = example.thing();

    // Test initial values
    assert_eq!(example.get_name(), "New Name");
    assert_eq!(example.value, 0);

    // Test mutable access
    example.get_component_mut().value = 42;
    assert_eq!(example.value, 42);

    // Test component cloning
    let cloned = example.get_component();
    assert_eq!(cloned.value, 42);
    assert_eq!(cloned.name, "New Name");
}

#[test]
fn hash_db_gives_back_what_was_stored() {
    let mut db = HashDb::new();
    assert_eq!(db.len(), 0);
    db.insert("answer", 42u32);
    db.insert("name", "zenyx".to_string());
    assert_eq!(db.len(), 2);
    assert_eq!(db.get::<u32>("answer"), Some(&42u32));
    assert_eq!(db.get::<String>("name"), Some(&"zenyx".to_string()));
    assert_eq!(db.get::<u32>("missing"), None);
}

#[test]
fn hash_db_tells_types_apart() {
    let mut db = HashDb::new();
    db.insert("answer", 42u32);
    assert!(db.is_type::<u32>("answer"));
    assert!(!db.is_type::<String>("answer"));
    assert!(!db.is_type::<u32>("missing"));
    assert_eq!(db.get::<String>("answer"), None);
}

#[test]
fn hash_db_insert_replaces_the_value_of_a_key() {
    let mut db = HashDb::new();
    db.insert("k", 1u8);
    db.insert("k", "one".to_string());
    assert_eq!(db.len(), 1);
    assert_eq!(db.get::<u8>("k"), None);
    assert_eq!(db.get::<String>("k"), Some(&"one".to_string()));
}

#[test]
fn example_component_counts() {
    let example = ExampleComponent::new();
    assert_eq!(example.thing(), 9);
    assert_eq!(example.get_component().thing(), 5);
}

#[test]
fn example_component_takes_over_another() {
    let mut example = ExampleComponent::new();
    example.assign(ExampleComponent { value: 7, f: 3, name: "other".to_string() });
    assert_eq!(example.value, 7);
    assert_eq!(example.f, 3);
    assert_eq!(example.name, "other");
}

#[test]
fn add_sums() {
    assert_eq!(zenyx::add(2, 2), 4);
    assert_eq!(zenyx::add(0, u64::MAX), u64::MAX);
}
