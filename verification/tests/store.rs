use linechat::login::{
    generate_unique_id, initialize_database, log, register, user_exists, Person,
};

#[test]
fn seeded_admin_authenticates() {
    let store = initialize_database().unwrap();
    let id = log(&store, &"admin".to_string(), &"admin".to_string()).unwrap();
    assert_eq!(id, 0);
    let admin = Person::new(0, &store).unwrap();
    assert_eq!(admin.get_name(), "admin");
    assert_eq!(admin.get_id(), 0);
}

#[test]
fn authentication_requires_exact_name_and_secret() {
    let mut store = initialize_database().unwrap();
    let id = generate_unique_id(&store).unwrap();
    register(&mut store, &"alice".to_string(), &"secret".to_string(), id).unwrap();

    assert_eq!(log(&store, &"alice".to_string(), &"secret".to_string()).unwrap(), id);
    assert!(log(&store, &"alice".to_string(), &"secreT".to_string()).is_err());
    assert!(log(&store, &"alice".to_string(), &"secret ".to_string()).is_err());
    assert!(log(&store, &"alicE".to_string(), &"secret".to_string()).is_err());
    assert!(log(&store, &"alic".to_string(), &"secret".to_string()).is_err());
    assert!(log(&store, &"".to_string(), &"".to_string()).is_err());
}

#[test]
fn existence_follows_registration() {
    let mut store = initialize_database().unwrap();
    assert!(user_exists(&store, "admin").unwrap());
    assert!(!user_exists(&store, "bob").unwrap());
    let id = generate_unique_id(&store).unwrap();
    register(&mut store, &"bob".to_string(), &"pw".to_string(), id).unwrap();
    assert!(user_exists(&store, "bob").unwrap());
}

#[test]
fn lookup_of_missing_id_is_not_found() {
    let store = initialize_database().unwrap();
    assert!(Person::new(41, &store).is_err());
    assert!(Person::new(0, &store).is_ok());
}

#[test]
fn ids_allocated_sequentially_strictly_increase() {
    let mut store = initialize_database().unwrap();
    let mut previous: i32 = 0;
    for k in 0..5 {
        let id = generate_unique_id(&store).unwrap();
        assert!(id > previous, "allocation {} did not increase: {} then {}", k, previous, id);
        register(&mut store, &format!("user{}", k), &"pw".to_string(), id).unwrap();
        previous = id;
    }
}

#[test]
fn sequential_registrations_stay_unique() {
    let mut store = initialize_database().unwrap();
    let names = ["ada", "grace", "edsger"];
    let mut ids = Vec::new();
    for name in names.iter() {
        let id = generate_unique_id(&store).unwrap();
        register(&mut store, &name.to_string(), &"pw".to_string(), id).unwrap();
        ids.push(id);
    }
    for (i, name) in names.iter().enumerate() {
        let found = log(&store, &name.to_string(), &"pw".to_string()).unwrap();
        assert_eq!(found, ids[i]);
    }
    ids.sort();
    ids.dedup();
    assert_eq!(ids.len(), names.len());
}

#[test]
fn duplicate_id_insert_is_refused_and_changes_nothing() {
    let mut store = initialize_database().unwrap();
    let id = generate_unique_id(&store).unwrap();
    register(&mut store, &"carol".to_string(), &"pw".to_string(), id).unwrap();
    let second = register(&mut store, &"dan".to_string(), &"pw".to_string(), id);
    assert!(second.is_err());
    assert!(!user_exists(&store, "dan").unwrap());
}
