use deepthought::DeepThoughtError;
use deepthought::context::{DeepThoughtContext, Role};
use deepthought::router::DeepThoughtRouter;

#[test]
fn context_capacity_two_appends_then_reject() {
    // A session opened with a maximum of 2 accepts exactly 2 appends after
    // the initial system message and rejects the 3rd, leaving the history
    // unchanged.
    let mut c = DeepThoughtContext::init("sys").unwrap();
    c.maximum_messages(2);
    assert!(c.user("first").is_ok());
    assert!(c.assistant("second").is_ok());
    let before = c.messages().len();
    let r = c.user("third");
    assert!(matches!(r, Err(DeepThoughtError::Capacity(_))));
    assert_eq!(c.messages().len(), before);
    assert_eq!(c.messages().len(), 3);
}

#[test]
fn context_records_messages_in_order() {
    let mut c = DeepThoughtContext::new().unwrap();
    c.system("s").unwrap();
    c.user("u").unwrap();
    c.assistant("a").unwrap();
    let msgs = c.messages();
    assert_eq!(msgs.len(), 3);
    assert_eq!(msgs[0].role, Role::System);
    assert_eq!(msgs[0].text, "s");
    assert_eq!(msgs[1].role, Role::User);
    assert_eq!(msgs[1].text, "u");
    assert_eq!(msgs[2].role, Role::Assistant);
    assert_eq!(msgs[2].text, "a");
}

#[test]
fn context_remove_last_drops_newest() {
    let mut c = DeepThoughtContext::init("sys").unwrap();
    c.user("u").unwrap();
    c.remove_last();
    assert_eq!(c.messages().len(), 1);
    assert_eq!(c.messages()[0].role, Role::System);
}

#[test]
fn router_session_lifecycle() {
    let mut router = DeepThoughtRouter::new().unwrap();
    router.new_session_with_prompt("alpha", "You are alpha.").unwrap();
    router.new_session("beta").unwrap();
    let names = router.list_sessions();
    assert_eq!(names.len(), 2);
    assert!(names.contains(&"alpha".to_string()));
    assert!(names.contains(&"beta".to_string()));

    let alpha = router.get_session("alpha").unwrap();
    assert_eq!(alpha.messages().len(), 1);
    assert_eq!(alpha.messages()[0].text, "You are alpha.");

    assert!(matches!(
        router.get_session("missing"),
        Err(DeepThoughtError::NotFound(_))
    ));

    router.drop_session("beta").unwrap();
    assert!(matches!(
        router.drop_session("beta"),
        Err(DeepThoughtError::NotFound(_))
    ));
    assert_eq!(router.list_sessions().len(), 1);
}

#[test]
fn router_session_capacity_enforced_on_append() {
    let mut router = DeepThoughtRouter::new().unwrap();
    router.new_session_with_prompt("s", "sys").unwrap();
    router.set_session_maximum("s", 2).unwrap();
    router.append_user("s", "one").unwrap();
    router.append_assistant("s", "two").unwrap();
    let r = router.append_user("s", "three");
    assert!(matches!(r, Err(DeepThoughtError::Capacity(_))));
    let session = router.get_session("s").unwrap();
    assert_eq!(session.messages().len(), 3);
    assert_eq!(session.messages()[2].text, "two");
}

#[test]
fn router_session_reopen_replaces_history() {
    let mut router = DeepThoughtRouter::new().unwrap();
    router.new_session_with_prompt("s", "first").unwrap();
    router.append_user("s", "hello").unwrap();
    router.new_session_with_prompt("s", "second").unwrap();
    let session = router.get_session("s").unwrap();
    assert_eq!(session.messages().len(), 1);
    assert_eq!(session.messages()[0].text, "second");
    assert_eq!(router.list_sessions().len(), 1);
}

#[test]
fn append_to_unknown_session_not_found() {
    let mut router = DeepThoughtRouter::new().unwrap();
    assert!(matches!(
        router.append_user("nope", "x"),
        Err(DeepThoughtError::NotFound(_))
    ));
    assert!(matches!(
        router.append_system("nope", "x"),
        Err(DeepThoughtError::NotFound(_))
    ));
    assert!(matches!(
        router.append_assistant("nope", "x"),
        Err(DeepThoughtError::NotFound(_))
    ));
}
