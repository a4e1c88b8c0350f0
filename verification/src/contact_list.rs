//! The verified core: one committed [`Contact`] per list position, an
//! [`EditContact`] scratch session while that position is being edited,
//! the [`ContactObject`] state machine that switches between the two, and
//! the [`ContactList`] that routes position-addressed events.

use vstd::prelude::*;

verus! {

/// Event addressed to the whole list. `ContactChanged` carries the list
/// position of the contact it is meant for; the other variants are
/// top-level placeholders that the list ignores.
#[derive(Debug, Clone)]
pub enum ContactMessage {
    EditContact,
    DoneEditing,
    ContactChanged(usize, Change),
    NameChanged(String),
    IpChanged(String),
}

/// Event addressed to a single contact slot.
#[derive(Debug, Clone)]
pub enum Change {
    EditContact,
    DoneEditing,
    NameChanged(String),
    IpChanged(String),
}

/// One committed contact: a stable id (`index`) plus the two displayed
/// text fields. Replaced wholesale on commit, never mutated in place.
#[derive(Debug, Clone, PartialEq, Eq)]
pub struct Contact {
    pub index: usize,
    pub name: String,
    pub ip: String,
}

impl Contact {
    pub fn new(index: usize, name: String, ip: String) -> (c: Contact)
        ensures
            c == (Contact { index, name, ip }),
    {
        Contact { index, name, ip }
    }
}

/// Scratch state for one contact while it is being edited: the committed
/// values (kept only to serve as placeholders) and the live edit buffers.
#[derive(Debug, Clone, PartialEq, Eq)]
pub struct EditContact {
    pub index: usize,
    pub previous_name: String,
    pub name: String,
    pub previous_ip: String,
    pub ip: String,
}

impl EditContact {
    /// Opens a session on the given committed values: both the placeholder
    /// and the live buffer of each field start out as the committed text.
    pub fn new(index: usize, name: String, ip: String) -> (e: EditContact)
        ensures
            e == (EditContact {
                index,
                previous_name: name,
                name,
                previous_ip: ip,
                ip,
            }),
    {
        let previous_name = name.clone();
        let previous_ip = ip.clone();
        EditContact { index, previous_name, name, previous_ip, ip }
    }
}

/// One list slot: either a committed contact on display or a contact
/// currently being edited. Exactly one of the two at any time.
#[derive(Debug, Clone, PartialEq, Eq)]
pub enum ContactObject {
    ExistingContact(Contact),
    CurrentlyEditing(EditContact),
}

/// The id of the slot's contact, whichever state the slot is in.
pub open spec fn slot_id(s: ContactObject) -> usize {
    match s {
        ContactObject::ExistingContact(c) => c.index,
        ContactObject::CurrentlyEditing(e) => e.index,
    }
}

/// The transition relation of one slot. Every pairing of state and event
/// that the table of transitions does not name is a no-op, never an error:
/// `EditContact` only acts on a displayed slot, the other three events
/// only act on a slot being edited.
pub open spec fn slot_step(s: ContactObject, msg: Change) -> ContactObject {
    match msg {
        Change::EditContact => match s {
            ContactObject::ExistingContact(c) => ContactObject::CurrentlyEditing(EditContact {
                index: c.index,
                previous_name: c.name,
                name: c.name,
                previous_ip: c.ip,
                ip: c.ip,
            }),
            ContactObject::CurrentlyEditing(_) => s,
        },
        Change::DoneEditing => match s {
            ContactObject::CurrentlyEditing(e) => ContactObject::ExistingContact(Contact {
                index: e.index,
                name: e.name,
                ip: e.ip,
            }),
            ContactObject::ExistingContact(_) => s,
        },
        Change::NameChanged(name) => match s {
            ContactObject::CurrentlyEditing(e) => ContactObject::CurrentlyEditing(EditContact {
                index: e.index,
                previous_name: e.previous_name,
                name: name,
                previous_ip: e.previous_ip,
                ip: e.ip,
            }),
            ContactObject::ExistingContact(_) => s,
        },
        Change::IpChanged(ip) => match s {
            ContactObject::CurrentlyEditing(e) => ContactObject::CurrentlyEditing(EditContact {
                index: e.index,
                previous_name: e.previous_name,
                name: e.name,
                previous_ip: e.previous_ip,
                ip: ip,
            }),
            ContactObject::ExistingContact(_) => s,
        },
    }
}

impl ContactObject {
    /// Applies one event to this slot, exactly as [`slot_step`] says:
    /// begin-edit captures the committed values into a fresh session,
    /// done-editing commits the live buffers into a fresh contact, an edit
    /// event replaces one live buffer, and every other pairing is a no-op.
    pub fn update(&mut self, msg: Change)
        ensures
            *final(self) == slot_step(*old(self), msg),
    {
        match msg {
            Change::EditContact => {
                if let ContactObject::ExistingContact(contact) = &*self {
                    let session = EditContact::new(
                        contact.index,
                        contact.name.clone(),
                        contact.ip.clone(),
                    );
                    *self = ContactObject::CurrentlyEditing(session);
                }
            }
            Change::DoneEditing => {
                if let ContactObject::CurrentlyEditing(contact) = &*self {
                    let committed = Contact::new(
                        contact.index,
                        contact.name.clone(),
                        contact.ip.clone(),
                    );
                    *self = ContactObject::ExistingContact(committed);
                }
            }
            Change::NameChanged(name) => {
                if let ContactObject::CurrentlyEditing(contact) = &mut *self {
                    contact.name = name;
                }
            }
            Change::IpChanged(ip) => {
                if let ContactObject::CurrentlyEditing(contact) = &mut *self {
                    contact.ip = ip;
                }
            }
        }
    }
}

/// The ordered list of slots. The position of a slot is its routing key:
/// slots are never inserted, removed or reordered, so position stays
/// stable for the life of the list.
pub struct ContactList {
    pub contacts: Vec<ContactObject>,
}

/// The transition relation of the whole list. A `ContactChanged` event is
/// forwarded to the slot at its position; one whose position is out of
/// range is dropped, and every unaddressed event is a no-op.
pub open spec fn list_step(contacts: Seq<ContactObject>, msg: ContactMessage) -> Seq<ContactObject> {
    match msg {
        ContactMessage::ContactChanged(index, change) => {
            if index < contacts.len() {
                contacts.update(index as int, slot_step(contacts[index as int], change))
            } else {
                contacts
            }
        },
        _ => contacts,
    }
}

impl ContactList {
    /// Routes one event, exactly as [`list_step`] says: only the addressed
    /// slot can change, and an out-of-range position is silently ignored.
    pub fn update(&mut self, msg: ContactMessage)
        ensures
            final(self).contacts@ == list_step(old(self).contacts@, msg),
    {
        match msg {
            ContactMessage::EditContact => {}
            ContactMessage::DoneEditing => {}
            ContactMessage::ContactChanged(index, change) => {
                if index < self.contacts.len() {
                    let slot = &mut self.contacts[index];
                    slot.update(change);
                }
            }
            ContactMessage::NameChanged(_) => {}
            ContactMessage::IpChanged(_) => {}
        }
    }
}

impl Default for ContactList {
    /// The seed list: two displayed contacts, Tom and Grete.
    fn default() -> (list: Self)
        ensures
            list.contacts@.len() == 2,
            list.contacts@[0] matches ContactObject::ExistingContact(c)
                && c.index == 0 && c.name@ == "Tom"@ && c.ip@ == "1.1.1.1"@,
            list.contacts@[1] matches ContactObject::ExistingContact(c)
                && c.index == 1 && c.name@ == "Grete"@ && c.ip@ == "2.2.2.2"@,
    {
        let mut contacts: Vec<ContactObject> = Vec::new();
        contacts.push(ContactObject::ExistingContact(Contact::new(
            0,
            String::from_str("Tom"),
            String::from_str("1.1.1.1"),
        )));
        contacts.push(ContactObject::ExistingContact(Contact::new(
            1,
            String::from_str("Grete"),
            String::from_str("2.2.2.2"),
        )));
        ContactList { contacts }
    }
}

/// What the rendering shell needs in order to draw one slot: a read-only
/// row with its two texts and a begin-edit action, or an edit row with a
/// placeholder and a live buffer per field and a commit action. Purely
/// descriptive; the shell owns all widgets and focus.
#[derive(Debug, Clone, PartialEq, Eq)]
pub enum ContactView {
    Display { name: String, ip: String },
    Editing {
        name_placeholder: String,
        name: String,
        ip_placeholder: String,
        ip: String,
    },
}

/// The visual description a slot presents in its current state.
pub open spec fn slot_view(s: ContactObject) -> ContactView {
    match s {
        ContactObject::ExistingContact(c) => ContactView::Display { name: c.name, ip: c.ip },
        ContactObject::CurrentlyEditing(e) => ContactView::Editing {
            name_placeholder: e.previous_name,
            name: e.name,
            ip_placeholder: e.previous_ip,
            ip: e.ip,
        },
    }
}

impl ContactObject {
    /// Describes this slot for the shell, exactly as [`slot_view`] says.
    /// A pure projection: the slot itself is untouched.
    pub fn view(&self) -> (v: ContactView)
        ensures
            v == slot_view(*self),
    {
        match self {
            ContactObject::ExistingContact(contact) => ContactView::Display {
                name: contact.name.clone(),
                ip: contact.ip.clone(),
            },
            ContactObject::CurrentlyEditing(contact) => ContactView::Editing {
                name_placeholder: contact.previous_name.clone(),
                name: contact.name.clone(),
                ip_placeholder: contact.previous_ip.clone(),
                ip: contact.ip.clone(),
            },
        }
    }
}

impl ContactList {
    /// Describes every slot in list order, one entry per slot. The entry's
    /// position in the returned vector is the slot's routing key, so the
    /// shell can address future events back to the slot that produced them.
    pub fn view(&self) -> (views: Vec<ContactView>)
        ensures
            views@.len() == self.contacts@.len(),
            forall|i: int| 0 <= i < views@.len()
                ==> #[trigger] views@[i] == slot_view(self.contacts@[i]),
    {
        let mut views: Vec<ContactView> = Vec::new();
        let mut k: usize = 0;
        while k < self.contacts.len()
            invariant
                k <= self.contacts@.len(),
                views@.len() == k,
                forall|i: int| 0 <= i < k
                    ==> #[trigger] views@[i] == slot_view(self.contacts@[i]),
            decreases self.contacts@.len() - k,
        {
            views.push(self.contacts[k].view());
            k = k + 1;
        }
        views
    }
}

/// A slot after a whole sequence of events, applied first to last.
pub open spec fn slot_steps(s: ContactObject, msgs: Seq<Change>) -> ContactObject
    decreases msgs.len(),
{
    if msgs.len() == 0 {
        s
    } else {
        slot_steps(slot_step(s, msgs[0]), msgs.drop_first())
    }
}

/// Beginning an edit on a displayed contact always yields the editing
/// state whose placeholders and live buffers both hold the committed
/// name and address, under the same id.
pub proof fn lemma_begin_edit(c: Contact)
    ensures
        slot_step(ContactObject::ExistingContact(c), Change::EditContact)
            == (ContactObject::CurrentlyEditing(EditContact {
                index: c.index,
                previous_name: c.name,
                name: c.name,
                previous_ip: c.ip,
                ip: c.ip,
            })),
{
}

/// Committing an edit session always yields the display state whose
/// contact holds the live buffers as they stood at the commit, under the
/// same id.
pub proof fn lemma_commit(e: EditContact)
    ensures
        slot_step(ContactObject::CurrentlyEditing(e), Change::DoneEditing)
            == (ContactObject::ExistingContact(Contact {
                index: e.index,
                name: e.name,
                ip: e.ip,
            })),
{
}

/// Mismatched events are ignored without any effect: begin-edit on a slot
/// already being edited changes nothing, and so does any other event on a
/// displayed slot.
pub proof fn lemma_mismatched_event_ignored(s: ContactObject, msg: Change)
    ensures
        s is CurrentlyEditing && msg is EditContact ==> slot_step(s, msg) == s,
        s is ExistingContact && !(msg is EditContact) ==> slot_step(s, msg) == s,
{
}

/// No sequence of events, whatever it holds and in whatever order, ever
/// changes the id of a slot's contact.
pub proof fn lemma_id_stable(s: ContactObject, msgs: Seq<Change>)
    ensures
        slot_id(slot_steps(s, msgs)) == slot_id(s),
    decreases msgs.len(),
{
    if msgs.len() > 0 {
        assert(slot_id(slot_step(s, msgs[0])) == slot_id(s));
        lemma_id_stable(slot_step(s, msgs[0]), msgs.drop_first());
    }
}

/// Routing an addressed event touches exactly the addressed slot: the
/// slot at the event's position takes one [`slot_step`], every other slot
/// is left as it was, and the list keeps its length.
pub proof fn lemma_routing_is_local(contacts: Seq<ContactObject>, index: usize, change: Change)
    requires
        index < contacts.len(),
    ensures
        list_step(contacts, ContactMessage::ContactChanged(index, change)).len()
            == contacts.len(),
        list_step(contacts, ContactMessage::ContactChanged(index, change))[index as int]
            == slot_step(contacts[index as int], change),
        forall|j: int| 0 <= j < contacts.len() && j != index
            ==> list_step(contacts, ContactMessage::ContactChanged(index, change))[j]
                == contacts[j],
{
}

/// An addressed event whose position is at or past the end of the list,
/// and every unaddressed event, leaves the whole list unchanged.
pub proof fn lemma_event_dropped(contacts: Seq<ContactObject>, msg: ContactMessage)
    ensures
        msg matches ContactMessage::ContactChanged(index, _) && index >= contacts.len()
            ==> list_step(contacts, msg) == contacts,
        !(msg is ContactChanged) ==> list_step(contacts, msg) == contacts,
{
}

} // verus!
