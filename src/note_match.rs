use vstd::prelude::*;
use clack_plugin::events::{Match, Pckn};

verus! {

/// clack's matcher: a specific value, or every value.
#[verifier::external_type_specification]
#[verifier::reject_recursive_types(T)]
pub struct ExMatch<T>(Match<T>);

/// clack's port, channel, key and note id address, each part a matcher.
#[verifier::external_type_specification]
pub struct ExPckn(Pckn);

/// Whether matcher `m` admits `v`.
pub open spec fn admits<T>(m: Match<T>, v: T) -> bool {
    match m {
        Match::All => true,
        Match::Specific(x) => x == v,
    }
}

pub fn match_u16(m: Match<u16>, v: u16) -> (r: bool)
    ensures
        r == admits(m, v),
{
    match m {
        Match::All => true,
        Match::Specific(x) => x == v,
    }
}

pub fn match_u32(m: Match<u32>, v: u32) -> (r: bool)
    ensures
        r == admits(m, v),
{
    match m {
        Match::All => true,
        Match::Specific(x) => x == v,
    }
}

/// The notes an event addresses: a matcher for the channel, the key and the
/// note id.
#[derive(Clone, Copy, Debug, PartialEq, Eq)]
pub struct HostNoteMatch {
    pub channel: Match<u16>,
    pub note: Match<u16>,
    pub id: Match<u32>,
}

impl HostNoteMatch {
    /// The channel, key and note id parts of `pckn`.
    pub fn from_pckn(pckn: &Pckn) -> (r: HostNoteMatch)
        ensures
            r.channel == pckn.channel,
            r.note == pckn.key,
            r.id == pckn.note_id,
    {
        HostNoteMatch { channel: pckn.channel, note: pckn.key, id: pckn.note_id }
    }
}

/// Whether every part of `pckn`, the port included, matches every value.
pub open spec fn pckn_is_global(pckn: Pckn) -> bool {
    pckn.port_index is All && pckn.channel is All && pckn.key is All && pckn.note_id is All
}

pub fn is_global(pckn: &Pckn) -> (r: bool)
    ensures
        r == pckn_is_global(*pckn),
{
    matches!(pckn.port_index, Match::All) && matches!(pckn.channel, Match::All)
        && matches!(pckn.key, Match::All) && matches!(pckn.note_id, Match::All)
}

/// The identity of a note that the host started.
#[derive(Clone, Copy, Debug, PartialEq, Eq)]
pub struct NoteIdentHost {
    pub channel: u16,
    pub note: u16,
    pub id: Option<u32>,
}

/// Who a voice answers to: a host note, or another source that host events
/// never address.
#[derive(Clone, Copy, Debug, PartialEq, Eq)]
pub enum NoteIdent {
    Host(NoteIdentHost),
    Other(u32),
}

/// Whether events addressed by `q` reach a voice of identity `ident`.
///
/// A host note with an id is reached where the id matcher admits that id; a
/// note without one only by a matcher of every id. Channel and key must be
/// admitted too.
pub open spec fn ident_matches(ident: NoteIdent, q: HostNoteMatch) -> bool {
    match ident {
        NoteIdent::Host(h) => {
            &&& match h.id {
                Some(id) => admits(q.id, id),
                None => q.id is All,
            }
            &&& admits(q.channel, h.channel)
            &&& admits(q.note, h.note)
        },
        NoteIdent::Other(_) => false,
    }
}

impl NoteIdent {
    pub fn matches(&self, q: &HostNoteMatch) -> (r: bool)
        ensures
            r == ident_matches(*self, *q),
    {
        match self {
            NoteIdent::Host(h) => {
                let id_matches = match h.id {
                    Some(id) => match_u32(q.id, id),
                    None => matches!(q.id, Match::All),
                };
                id_matches && match_u16(q.channel, h.channel) && match_u16(q.note, h.note)
            },
            NoteIdent::Other(_) => false,
        }
    }
}

} // verus!
