use contact_list::contact_list::{Change, Contact, ContactObject, EditContact};

fn display(index: usize, name: &str, ip: &str) -> ContactObject {
    ContactObject::ExistingContact(Contact::new(index, name.to_string(), ip.to_string()))
}

fn editing(index: usize, name: &str, ip: &str) -> ContactObject {
    ContactObject::CurrentlyEditing(EditContact::new(index, name.to_string(), ip.to_string()))
}

#[test]
fn begin_edit_seeds_buffers_from_committed_values() {
    let mut slot = display(3, "Tom", "1.1.1.1");
    slot.update(Change::EditContact);
    let expected = EditContact {
        index: 3,
        previous_name: "Tom".to_string(),
        name: "Tom".to_string(),
        previous_ip: "1.1.1.1".to_string(),
        ip: "1.1.1.1".to_string(),
    };
    assert_eq!(slot, ContactObject::CurrentlyEditing(expected));
}

#[test]
fn commit_builds_contact_from_live_buffers() {
    let mut slot = editing(5, "Grete", "2.2.2.2");
    slot.update(Change::NameChanged("Margarete".to_string()));
    slot.update(Change::DoneEditing);
    let expected = Contact {
        index: 5,
        name: "Margarete".to_string(),
        ip: "2.2.2.2".to_string(),
    };
    assert_eq!(slot, ContactObject::ExistingContact(expected));
}

#[test]
fn name_edit_replaces_only_the_name_buffer() {
    let mut slot = editing(0, "Tom", "1.1.1.1");
    slot.update(Change::NameChanged("Thomas".to_string()));
    let expected = EditContact {
        index: 0,
        previous_name: "Tom".to_string(),
        name: "Thomas".to_string(),
        previous_ip: "1.1.1.1".to_string(),
        ip: "1.1.1.1".to_string(),
    };
    assert_eq!(slot, ContactObject::CurrentlyEditing(expected));
}

#[test]
fn ip_edit_replaces_only_the_ip_buffer() {
    let mut slot = editing(0, "Tom", "1.1.1.1");
    slot.update(Change::IpChanged("8.8.8.8".to_string()));
    let expected = EditContact {
        index: 0,
        previous_name: "Tom".to_string(),
        name: "Tom".to_string(),
        previous_ip: "1.1.1.1".to_string(),
        ip: "8.8.8.8".to_string(),
    };
    assert_eq!(slot, ContactObject::CurrentlyEditing(expected));
}

#[test]
fn begin_edit_while_editing_changes_nothing() {
    let mut slot = editing(1, "Tom", "1.1.1.1");
    let before = slot.clone();
    slot.update(Change::EditContact);
    assert_eq!(slot, before);
}

#[test]
fn editing_events_on_display_slot_change_nothing() {
    let mut slot = display(1, "Tom", "1.1.1.1");
    let before = slot.clone();
    slot.update(Change::DoneEditing);
    assert_eq!(slot, before);
    slot.update(Change::NameChanged("Ignored".to_string()));
    assert_eq!(slot, before);
    slot.update(Change::IpChanged("9.9.9.9".to_string()));
    assert_eq!(slot, before);
}

#[test]
fn id_never_changes_over_a_sequence_of_events() {
    let mut slot = display(42, "Tom", "1.1.1.1");
    let events = vec![
        Change::EditContact,
        Change::NameChanged("Thomas".to_string()),
        Change::IpChanged("4.4.4.4".to_string()),
        Change::EditContact,
        Change::DoneEditing,
        Change::DoneEditing,
        Change::EditContact,
        Change::NameChanged("Tommi".to_string()),
    ];
    for ev in events {
        slot.update(ev);
        let id = match &slot {
            ContactObject::ExistingContact(c) => c.index,
            ContactObject::CurrentlyEditing(e) => e.index,
        };
        assert_eq!(id, 42);
    }
}
