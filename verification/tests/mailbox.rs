use linechat::login::{generate_unique_id, initialize_database, register, CredentialStore, Person};
use linechat::messaging::Chat;

fn registered(store: &mut CredentialStore, name: &str) -> Person {
    let id = generate_unique_id(store).unwrap();
    register(store, &name.to_string(), &"pw".to_string(), id).unwrap();
    Person::new(id, store).unwrap()
}

#[test]
fn acknowledgement_embeds_the_body() {
    let mut store = initialize_database().unwrap();
    let a = registered(&mut store, "a");
    let mut chat = Chat::new();
    let ack = chat.send(a, 7, "hello there".to_string());
    assert_eq!(ack, "Your message 'hello there' was sent!");
}

#[test]
fn filtering_by_recipient_keeps_insertion_order() {
    let mut store = initialize_database().unwrap();
    let a = registered(&mut store, "a");
    let b = registered(&mut store, "b");
    let c = registered(&mut store, "c");
    let mut chat = Chat::new();
    chat.send(a, 1, "x".to_string());
    chat.send(b, 2, "y".to_string());
    chat.send(c, 0, "z".to_string());

    assert_eq!(chat.show_messages(1), vec!["From a: x", "From c: z"]);
    assert_eq!(chat.show_messages(2), vec!["From b: y", "From c: z"]);
    assert_eq!(chat.show_messages(0), vec!["From a: x", "From b: y", "From c: z"]);
}

#[test]
fn reading_twice_without_append_is_identical() {
    let mut store = initialize_database().unwrap();
    let a = registered(&mut store, "a");
    let b = registered(&mut store, "b");
    let mut chat = Chat::new();
    chat.send(a, 2, "first".to_string());
    chat.send(b, 0, "second".to_string());

    let once = chat.show_messages(2);
    let again = chat.show_messages(2);
    assert_eq!(once, again);
    let all_once = chat.show_messages(0);
    let all_again = chat.show_messages(0);
    assert_eq!(all_once, all_again);
}

#[test]
fn broadcast_and_admin_wildcard_are_different_things() {
    // A broadcast (recipient 0) reaches every viewer; the administrator's id
    // happens to be 0, which separately makes its view a wildcard over all
    // messages, private ones included.
    let mut store = initialize_database().unwrap();
    let a = registered(&mut store, "a");
    let b = registered(&mut store, "b");
    let a2 = Person::new(a.get_id(), &store).unwrap();
    let mut chat = Chat::new();
    chat.send(a, 0, "to everyone".to_string());
    let private_recipient = b.get_id() + 1000;
    chat.send(b, private_recipient, "private".to_string());

    // Every viewer sees the broadcast, the sender included.
    assert_eq!(chat.show_messages(a2.get_id()), vec!["From a: to everyone"]);
    assert_eq!(chat.show_messages(9999), vec!["From a: to everyone"]);
    // The wildcard viewer 0 also sees the private message.
    assert_eq!(chat.show_messages(0), vec!["From a: to everyone", "From b: private"]);
    // An uninvolved viewer does not.
    assert_eq!(chat.show_messages(12), vec!["From a: to everyone"]);
}

#[test]
fn empty_mailbox_lists_nothing() {
    let chat = Chat::new();
    assert!(chat.show_messages(0).is_empty());
    assert!(chat.show_messages(5).is_empty());
}
