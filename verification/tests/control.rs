use reload::channel::HandoffChannel;
use reload::control::{new_session, reload_action};
use reload::loader::LibLoader;
use reload::object::ProcessingObject;

#[test]
fn session_name_is_prefixed_encoding() {
    let (id, name) = new_session();
    let encoded = name.strip_prefix("vsthotload").expect("fixed prefix");
    assert_eq!(encoded.len(), 14);
    assert!(encoded.bytes().all(|b| b.is_ascii_digit()));
    assert_eq!(encoded, reload::identity::encode(&id));
}

#[test]
fn reload_queues_extracted_object() {
    let mut loader = LibLoader::new();
    let mut ch = HandoffChannel::new();
    let queued = reload_action(&mut loader, &mut ch, String::from("/tmp/a.dll"), true);
    assert!(queued);
    assert_eq!(loader.module_count(), 1);
    assert_eq!(ch.try_pop(), Some(ProcessingObject::new(0)));
}

#[test]
fn reload_with_unresolved_factory_queues_nothing() {
    let mut loader = LibLoader::new();
    let mut ch = HandoffChannel::new();
    let queued = reload_action(&mut loader, &mut ch, String::from("/tmp/a.dll"), false);
    assert!(!queued);
    // The module is still retained: opening succeeded, only extraction failed.
    assert_eq!(loader.module_count(), 1);
    assert_eq!(ch.try_pop(), None);
}

#[test]
fn reload_against_full_channel_drops_the_offer() {
    let mut loader = LibLoader::new();
    let mut ch = HandoffChannel::new();
    assert!(reload_action(&mut loader, &mut ch, String::from("/tmp/a.dll"), true));
    assert!(reload_action(&mut loader, &mut ch, String::from("/tmp/b.dll"), true));
    // Channel full: the third reload still retains its module, but the
    // object is refused and the queued ones are untouched.
    assert!(!reload_action(&mut loader, &mut ch, String::from("/tmp/c.dll"), true));
    assert_eq!(loader.module_count(), 3);
    assert_eq!(ch.try_pop(), Some(ProcessingObject::new(0)));
    assert_eq!(ch.try_pop(), Some(ProcessingObject::new(1)));
    assert_eq!(ch.try_pop(), None);
}
