//! Header fields, and the status that a response header list carries.

use crate::status::{parse_status, status_value};
use vstd::prelude::*;

verus! {

/// One header field: a name and a value, both raw bytes.
#[derive(Clone, Debug)]
pub struct Header {
    pub name: Vec<u8>,
    pub value: Vec<u8>,
}

/// What a header field holds.
pub struct HeaderView {
    pub name: Seq<u8>,
    pub value: Seq<u8>,
}

impl View for Header {
    type V = HeaderView;

    open spec fn view(&self) -> HeaderView {
        HeaderView { name: self.name@, value: self.value@ }
    }
}

/// What a list of header fields holds, field by field.
pub open spec fn header_views(list: Seq<Header>) -> Seq<HeaderView> {
    Seq::new(list.len(), |i: int| list[i]@)
}

/// The name of the status pseudo-header, `:status`.
pub open spec fn status_name() -> Seq<u8> {
    seq![0x3au8, 0x73u8, 0x74u8, 0x61u8, 0x74u8, 0x75u8, 0x73u8]
}

/// The status after a header list was read: the last field named `:status`
/// decides, and a list without one leaves `prev` as it was.
pub open spec fn status_after(prev: u16, list: Seq<HeaderView>) -> u16
    decreases list.len(),
{
    if list.len() == 0 {
        prev
    } else if list.last().name == status_name() {
        status_value(list.last().value)
    } else {
        status_after(prev, list.drop_last())
    }
}

impl Header {
    /// Makes a header field from a name and a value.
    pub fn new(name: &[u8], value: &[u8]) -> (h: Header)
        ensures
            h@ == (HeaderView { name: name@, value: value@ }),
    {
        Header { name: slice_to_vec(name), value: slice_to_vec(value) }
    }

    /// Tells whether this field is the status pseudo-header.
    pub fn is_status(&self) -> (r: bool)
        ensures
            r == (self@.name == status_name()),
    {
        let n = &self.name;
        let r = n.len() == 7 && n[0] == 0x3a && n[1] == 0x73 && n[2] == 0x74 && n[3] == 0x61
            && n[4] == 0x74 && n[5] == 0x75 && n[6] == 0x73;
        assert(r ==> n@ =~= status_name());
        r
    }
}

/// Copies a slice into a vector.
fn slice_to_vec(s: &[u8]) -> (v: Vec<u8>)
    ensures
        v@ == s@,
{
    let mut v: Vec<u8> = Vec::new();
    let mut i: usize = 0;
    while i < s.len()
        invariant
            i <= s.len(),
            v@ == s@.take(i as int),
        decreases s.len() - i,
    {
        v.push(s[i]);
        i = i + 1;
    }
    v
}

/// Reads the status off a response header list, starting from `prev`.
pub fn scan_status(prev: u16, list: &Vec<Header>) -> (status: u16)
    ensures
        status == status_after(prev, header_views(list@)),
{
    let ghost views = header_views(list@);
    let mut status: u16 = prev;
    let mut i: usize = 0;
    while i < list.len()
        invariant
            i <= list.len(),
            views == header_views(list@),
            status == status_after(prev, views.take(i as int)),
        decreases list.len() - i,
    {
        assert(views.take(i + 1).drop_last() =~= views.take(i as int));
        if list[i].is_status() {
            status = parse_status(list[i].value.as_slice());
        }
        i = i + 1;
    }
    assert(views.take(list.len() as int) =~= views);
    status
}

} // verus!
