//! A small form-editor core: a list of contacts, each of which toggles
//! between a read-only display row and an in-place edit row. Events are
//! routed to a contact by its position in the list; the rendering shell
//! around this library only draws what [`contact_list::ContactList::view`]
//! describes and feeds classified events back in.

pub mod contact_list;

use vstd::prelude::*;

verus! {

/// Top-level event of the host application: navigation presses plus the
/// events destined for the contact list.
#[derive(Debug)]
pub enum Message {
    BackPressed,
    NextPressed,
    ContactMessage(contact_list::ContactMessage),
}

/// Event of the (currently skeletal) multi-step page container.
pub enum StepMessage {
    DebugToggled(bool),
}

} // verus!
