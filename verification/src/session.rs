//! The per-connection session protocol.
//!
//! A session is a state machine: unauthenticated at the top-level menu, or
//! authenticated at the main menu holding an identity snapshot, with small
//! intermediate states while a sub-flow waits for the next input line. One
//! call of [`step`] consumes one input line and yields the response lines;
//! [`prompt_lines`] gives the prompt written before each read. The transport
//! that carries the lines is the caller's business.

use vstd::prelude::*;

use crate::db::PersonRow;
use crate::digest::sha1_hex_of;
use crate::login;
use crate::login::{CredentialStore, Person, PersonView};
use crate::messaging::{lines_for, Chat, MessageView};
use crate::parse;

verus! {

/// The protocol state between two reads from the client.
pub enum SessionState {
    /// At the top-level menu, not authenticated.
    TopMenu,
    /// Login: waiting for the username.
    LoginUsername,
    /// Login: holding the username, waiting for the secret.
    LoginPassword(String),
    /// Registration: holding the pre-allocated id, waiting for the username.
    RegisterUsername(i32),
    /// Registration: holding the id and username, waiting for the secret.
    RegisterPassword(i32, String),
    /// Authenticated at the main menu, holding the identity snapshot.
    MainMenu(Person),
    /// Sending: waiting for the recipient id.
    SendRecipient(Person),
    /// Sending: holding the recipient, waiting for the body.
    SendBody(Person, i32),
    /// The session is over; the connection can be dropped.
    Closed,
}

/// The mathematical value of a [`SessionState`].
pub ghost enum StateView {
    TopMenu,
    LoginUsername,
    LoginPassword(Seq<char>),
    RegisterUsername(int),
    RegisterPassword(int, Seq<char>),
    MainMenu(PersonView),
    SendRecipient(PersonView),
    SendBody(PersonView, int),
    Closed,
}

impl View for SessionState {
    type V = StateView;

    open spec fn view(&self) -> StateView {
        match self {
            SessionState::TopMenu => StateView::TopMenu,
            SessionState::LoginUsername => StateView::LoginUsername,
            SessionState::LoginPassword(u) => StateView::LoginPassword(u@),
            SessionState::RegisterUsername(id) => StateView::RegisterUsername(*id as int),
            SessionState::RegisterPassword(id, u) => StateView::RegisterPassword(*id as int, u@),
            SessionState::MainMenu(p) => StateView::MainMenu(p@),
            SessionState::SendRecipient(p) => StateView::SendRecipient(p@),
            SessionState::SendBody(p, r) => StateView::SendBody(p@, *r as int),
            SessionState::Closed => StateView::Closed,
        }
    }
}

/// What one step at the top-level menu does. "1", "2" and "3" select login,
/// register and exit; anything else is refused. Choosing "2" allocates the
/// next free id at once (or reports a store fault and stays put). The stores
/// are not changed.
pub open spec fn top_menu_rel(
    line: Seq<char>,
    m0: Map<int, PersonRow>,
    post: StateView,
    outs: Seq<Seq<char>>,
) -> bool {
    &&& (line == "1"@ ==> post == StateView::LoginUsername && outs == Seq::<Seq<char>>::empty())
    &&& (line == "2"@ ==> match post {
        StateView::RegisterUsername(id) => {
            &&& outs == Seq::<Seq<char>>::empty()
            &&& (forall|i: int| #[trigger] m0.contains_key(i) ==> i < id)
            &&& (m0.contains_key(id - 1) || ((forall|i: int| !m0.contains_key(i)) && id == 1))
        },
        StateView::TopMenu => outs == seq!["Registration failed"@],
        _ => false,
    })
    &&& (line == "3"@ ==> post == StateView::Closed && outs == Seq::<Seq<char>>::empty())
    &&& (line != "1"@ && line != "2"@ && line != "3"@ ==> post == StateView::TopMenu && outs
        == seq!["Invalid choice"@])
}

/// What one step with a pending secret does: authenticate. On success the
/// session enters the main menu holding the snapshot of the matching
/// identity; otherwise it reports a uniform failure and returns to the
/// top-level menu. When no identity matches the name and digest, failure is
/// the only outcome.
pub open spec fn login_password_rel(
    username: Seq<char>,
    line: Seq<char>,
    m0: Map<int, PersonRow>,
    post: StateView,
    outs: Seq<Seq<char>>,
) -> bool {
    &&& match post {
        StateView::MainMenu(p) => {
            &&& outs == seq!["Login successful"@]
            &&& m0.contains_key(p.id)
            &&& p.name == m0[p.id].0
            &&& p.is_admin == m0[p.id].1
            &&& p.name == username
            &&& m0[p.id].2 == sha1_hex_of(line)
        },
        StateView::TopMenu => outs == seq!["Login failed"@],
        _ => false,
    }
    &&& ((forall|i: int|
        #[trigger] m0.contains_key(i) ==> !(m0[i].0 == username && m0[i].2 == sha1_hex_of(line)))
        ==> post == StateView::TopMenu)
}

/// What one step completing a registration does: if the name is taken,
/// refuse it and change nothing; otherwise insert the new identity under the
/// pre-allocated id, or report a store fault and change nothing. Either way
/// the session returns to the top-level menu (registration does not
/// authenticate).
pub open spec fn register_password_rel(
    id: int,
    username: Seq<char>,
    line: Seq<char>,
    m0: Map<int, PersonRow>,
    m1: Map<int, PersonRow>,
    post: StateView,
    outs: Seq<Seq<char>>,
) -> bool {
    &&& post == StateView::TopMenu
    &&& {
        ||| (outs == seq!["Registration successful"@] && m1 == m0.insert(
            id,
            (username, false, sha1_hex_of(line)),
        ))
        ||| (outs == seq!["Username already exists"@] && m1 == m0 && exists|i: int|
            #[trigger] m0.contains_key(i) && m0[i].0 == username)
        ||| (outs == seq!["Registration failed"@] && m1 == m0)
    }
    &&& ((exists|i: int| #[trigger] m0.contains_key(i) && m0[i].0 == username) ==> m1 == m0)
}

/// What one step at the main menu does. "1" starts sending, "2" lists the
/// mailbox as seen by the held identity, "3" logs out back to the top-level
/// menu (the connection stays open); anything else is refused. The stores are
/// not changed.
pub open spec fn main_menu_rel(
    p: PersonView,
    line: Seq<char>,
    c0: Seq<MessageView>,
    post: StateView,
    outs: Seq<Seq<char>>,
) -> bool {
    &&& (line == "1"@ ==> post == StateView::SendRecipient(p) && outs == Seq::<
        Seq<char>,
    >::empty())
    &&& (line == "2"@ ==> post == StateView::MainMenu(p) && outs == lines_for(c0, p.id))
    &&& (line == "3"@ ==> post == StateView::TopMenu && outs == Seq::<Seq<char>>::empty())
    &&& (line != "1"@ && line != "2"@ && line != "3"@ ==> post == StateView::MainMenu(p) && outs
        == seq!["Invalid choice"@])
}

/// What one step with a pending recipient does: a well-formed id is kept and
/// the body is awaited; malformed input aborts the sub-flow back to the main
/// menu.
pub open spec fn send_recipient_rel(
    p: PersonView,
    line: Seq<char>,
    post: StateView,
    outs: Seq<Seq<char>>,
) -> bool {
    &&& (parse::is_i32_numeral(line) ==> post == StateView::SendBody(
        p,
        parse::i32_numeral_val(line),
    ) && outs == Seq::<Seq<char>>::empty())
    &&& (!parse::is_i32_numeral(line) ==> post == StateView::MainMenu(p) && outs == seq![
        "Invalid choice"@,
    ])
}

/// What one step with a pending body does: append the message to the mailbox
/// on behalf of the held identity and acknowledge it.
pub open spec fn send_body_rel(
    p: PersonView,
    recipient: int,
    line: Seq<char>,
    c0: Seq<MessageView>,
    c1: Seq<MessageView>,
    post: StateView,
    outs: Seq<Seq<char>>,
) -> bool {
    &&& c1 == c0.push(MessageView { sender: p, recipient: recipient, message: line })
    &&& post == StateView::MainMenu(p)
    &&& outs == seq!["Your message '"@ + line + "' was sent!"@]
}

/// The whole protocol: what one step does in every state. `m0`/`c0` are the
/// credential store and mailbox before the step, `m1`/`c1` after it.
pub open spec fn step_spec(
    pre: StateView,
    line: Seq<char>,
    m0: Map<int, PersonRow>,
    c0: Seq<MessageView>,
    m1: Map<int, PersonRow>,
    c1: Seq<MessageView>,
    post: StateView,
    outs: Seq<Seq<char>>,
) -> bool {
    match pre {
        StateView::TopMenu => m1 == m0 && c1 == c0 && top_menu_rel(line, m0, post, outs),
        StateView::LoginUsername => m1 == m0 && c1 == c0 && post == StateView::LoginPassword(line)
            && outs == Seq::<Seq<char>>::empty(),
        StateView::LoginPassword(u) => m1 == m0 && c1 == c0 && login_password_rel(
            u,
            line,
            m0,
            post,
            outs,
        ),
        StateView::RegisterUsername(id) => m1 == m0 && c1 == c0 && post
            == StateView::RegisterPassword(id, line) && outs == Seq::<Seq<char>>::empty(),
        StateView::RegisterPassword(id, u) => c1 == c0 && register_password_rel(
            id,
            u,
            line,
            m0,
            m1,
            post,
            outs,
        ),
        StateView::MainMenu(p) => m1 == m0 && c1 == c0 && main_menu_rel(p, line, c0, post, outs),
        StateView::SendRecipient(p) => m1 == m0 && c1 == c0 && send_recipient_rel(
            p,
            line,
            post,
            outs,
        ),
        StateView::SendBody(p, r) => m1 == m0 && send_body_rel(p, r, line, c0, c1, post, outs),
        StateView::Closed => m1 == m0 && c1 == c0 && post == StateView::Closed && outs == Seq::<
            Seq<char>,
        >::empty(),
    }
}

/// The prompt lines written before each read, by state.
pub open spec fn prompt_spec(st: StateView) -> Seq<Seq<char>> {
    match st {
        StateView::TopMenu => seq!["1. Login"@, "2. Register"@, "3. Exit"@],
        StateView::LoginUsername => seq!["Enter username: "@],
        StateView::LoginPassword(_) => seq!["Enter password: "@],
        StateView::RegisterUsername(_) => seq!["Enter username: "@],
        StateView::RegisterPassword(_, _) => seq!["Enter password: "@],
        StateView::MainMenu(_) => seq!["1. Send message"@, "2. Show messages"@, "3. Exit"@],
        StateView::SendRecipient(_) => seq!["Enter recipient id: "@],
        StateView::SendBody(_, _) => seq!["Enter message: "@],
        StateView::Closed => Seq::empty(),
    }
}

/// A fresh session starts unauthenticated at the top-level menu.
pub fn initial_state() -> (r: SessionState)
    ensures
        r@ == StateView::TopMenu,
{
    SessionState::TopMenu
}

/// Whether the session is over.
pub fn is_closed(state: &SessionState) -> (r: bool)
    ensures
        r == (state@ is Closed),
{
    match state {
        SessionState::Closed => true,
        _ => false,
    }
}

fn str_eq(a: &str, b: &str) -> (r: bool)
    ensures
        r == (a@ == b@),
{
    let sa: String = a.to_owned();
    let sb: String = b.to_owned();
    sa == sb
}

fn no_lines() -> (r: Vec<String>)
    ensures
        r.deep_view() == Seq::<Seq<char>>::empty(),
{
    let r: Vec<String> = Vec::new();
    proof {
        assert(r.deep_view() =~= Seq::<Seq<char>>::empty());
    }
    r
}

fn one_line(s: &str) -> (r: Vec<String>)
    ensures
        r.deep_view() == seq![s@],
{
    let mut r: Vec<String> = Vec::new();
    r.push(s.to_owned());
    proof {
        assert(r.deep_view() =~= seq![s@]);
    }
    r
}

/// The prompt written before the next read, as lines.
pub fn prompt_lines(state: &SessionState) -> (r: Vec<String>)
    ensures
        r.deep_view() == prompt_spec(state@),
{
    match state {
        SessionState::TopMenu => {
            let mut r: Vec<String> = Vec::new();
            r.push("1. Login".to_owned());
            r.push("2. Register".to_owned());
            r.push("3. Exit".to_owned());
            proof {
                assert(r.deep_view() =~= prompt_spec(state@));
            }
            r
        },
        SessionState::LoginUsername => one_line("Enter username: "),
        SessionState::LoginPassword(_) => one_line("Enter password: "),
        SessionState::RegisterUsername(_) => one_line("Enter username: "),
        SessionState::RegisterPassword(_, _) => one_line("Enter password: "),
        SessionState::MainMenu(_) => {
            let mut r: Vec<String> = Vec::new();
            r.push("1. Send message".to_owned());
            r.push("2. Show messages".to_owned());
            r.push("3. Exit".to_owned());
            proof {
                assert(r.deep_view() =~= prompt_spec(state@));
            }
            r
        },
        SessionState::SendRecipient(_) => one_line("Enter recipient id: "),
        SessionState::SendBody(_, _) => one_line("Enter message: "),
        SessionState::Closed => no_lines(),
    }
}

fn step_top_menu(line: &str, store: &CredentialStore) -> (r: (SessionState, Vec<String>))
    ensures
        top_menu_rel(line@, store@, r.0@, r.1.deep_view()),
{
    proof {
        reveal_strlit("1");
        reveal_strlit("2");
        reveal_strlit("3");
        assert("1"@[0] == '1' && "2"@[0] == '2' && "3"@[0] == '3');
        assert("1"@ != "2"@ && "1"@ != "3"@ && "2"@ != "3"@);
    }
    if str_eq(line, "1") {
        (SessionState::LoginUsername, no_lines())
    } else if str_eq(line, "2") {
        match login::generate_unique_id(store) {
            Ok(id) => (SessionState::RegisterUsername(id), no_lines()),
            Err(_) => (SessionState::TopMenu, one_line("Registration failed")),
        }
    } else if str_eq(line, "3") {
        (SessionState::Closed, no_lines())
    } else {
        (SessionState::TopMenu, one_line("Invalid choice"))
    }
}

fn step_login_password(username: String, line: &str, store: &CredentialStore) -> (r: (
    SessionState,
    Vec<String>,
))
    ensures
        login_password_rel(username@, line@, store@, r.0@, r.1.deep_view()),
{
    let password = line.to_owned();
    match login::log(store, &username, &password) {
        Ok(id) => match Person::new(id, store) {
            Ok(p) => (SessionState::MainMenu(p), one_line("Login successful")),
            Err(_) => (SessionState::TopMenu, one_line("Login failed")),
        },
        Err(_) => (SessionState::TopMenu, one_line("Login failed")),
    }
}

fn step_register_password(
    id: i32,
    username: String,
    line: &str,
    store: &mut CredentialStore,
) -> (r: (SessionState, Vec<String>))
    ensures
        register_password_rel(
            id as int,
            username@,
            line@,
            old(store)@,
            final(store)@,
            r.0@,
            r.1.deep_view(),
        ),
{
    match login::user_exists(store, username.as_str()) {
        Ok(true) => (SessionState::TopMenu, one_line("Username already exists")),
        Ok(false) => {
            let password = line.to_owned();
            match login::register(store, &username, &password, id) {
                Ok(_) => (SessionState::TopMenu, one_line("Registration successful")),
                Err(_) => (SessionState::TopMenu, one_line("Registration failed")),
            }
        },
        Err(_) => (SessionState::TopMenu, one_line("Registration failed")),
    }
}

fn step_main_menu(p: Person, line: &str, chat: &Chat) -> (r: (SessionState, Vec<String>))
    ensures
        main_menu_rel(p@, line@, chat@, r.0@, r.1.deep_view()),
{
    proof {
        reveal_strlit("1");
        reveal_strlit("2");
        reveal_strlit("3");
        assert("1"@[0] == '1' && "2"@[0] == '2' && "3"@[0] == '3');
        assert("1"@ != "2"@ && "1"@ != "3"@ && "2"@ != "3"@);
    }
    if str_eq(line, "1") {
        (SessionState::SendRecipient(p), no_lines())
    } else if str_eq(line, "2") {
        let outs = chat.show_messages(p.get_id());
        (SessionState::MainMenu(p), outs)
    } else if str_eq(line, "3") {
        (SessionState::TopMenu, no_lines())
    } else {
        (SessionState::MainMenu(p), one_line("Invalid choice"))
    }
}

fn step_send_body(p: Person, recipient: i32, line: &str, chat: &mut Chat) -> (r: (
    SessionState,
    Vec<String>,
))
    ensures
        send_body_rel(
            p@,
            recipient as int,
            line@,
            old(chat)@,
            final(chat)@,
            r.0@,
            r.1.deep_view(),
        ),
{
    let sender = p.clone();
    let ack = chat.send(sender, recipient, line.to_owned());
    let mut outs: Vec<String> = Vec::new();
    outs.push(ack);
    proof {
        assert(outs.deep_view() =~= seq!["Your message '"@ + line@ + "' was sent!"@]);
    }
    (SessionState::MainMenu(p), outs)
}

/// Consumes one input line in the given state, against the shared stores, and
/// returns the next state with the response lines. The whole protocol it
/// follows is [`step_spec`].
pub fn step(
    state: SessionState,
    line: &str,
    store: &mut CredentialStore,
    chat: &mut Chat,
) -> (r: (SessionState, Vec<String>))
    ensures
        step_spec(
            state@,
            line@,
            old(store)@,
            old(chat)@,
            final(store)@,
            final(chat)@,
            r.0@,
            r.1.deep_view(),
        ),
{
    match state {
        SessionState::TopMenu => step_top_menu(line, store),
        SessionState::LoginUsername => {
            (SessionState::LoginPassword(line.to_owned()), no_lines())
        },
        SessionState::LoginPassword(username) => step_login_password(username, line, store),
        SessionState::RegisterUsername(id) => {
            (SessionState::RegisterPassword(id, line.to_owned()), no_lines())
        },
        SessionState::RegisterPassword(id, username) => step_register_password(
            id,
            username,
            line,
            store,
        ),
        SessionState::MainMenu(p) => step_main_menu(p, line, chat),
        SessionState::SendRecipient(p) => {
            match parse::parse_i32(line) {
                Some(recipient) => (SessionState::SendBody(p, recipient), no_lines()),
                None => (SessionState::MainMenu(p), one_line("Invalid choice")),
            }
        },
        SessionState::SendBody(p, recipient) => step_send_body(p, recipient, line, chat),
        SessionState::Closed => (SessionState::Closed, no_lines()),
    }
}

} // verus!

