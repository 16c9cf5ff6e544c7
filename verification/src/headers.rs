//! The parsed header collection the detector reads: name/value pairs of raw
//! bytes, in order, repeated names kept. Names compare ASCII
//! case-insensitively; values are opaque bytes until read as a
//! comma-separated list.

use vstd::prelude::*;
use vstd::slice::slice_to_vec;
use crate::ascii::{eq_ascii_ci, eq_ignore_ascii_case};
use crate::token_list::{list_has_token, list_contains_token};

verus! {

/// A parsed header collection.
#[derive(Clone, Debug)]
pub struct Headers {
    entries: Vec<(Vec<u8>, Vec<u8>)>,
}

/// The mathematical model of a header collection: the sequence of its
/// (name, value) entries.
pub type HeadersView = Seq<(Seq<u8>, Seq<u8>)>;

impl View for Headers {
    type V = HeadersView;

    closed spec fn view(&self) -> HeadersView {
        self.entries@.map_values(|p: (Vec<u8>, Vec<u8>)| (p.0@, p.1@))
    }
}

/// The values of every entry whose name equals `name` ASCII
/// case-insensitively, in order.
pub open spec fn values_of(h: HeadersView, name: Seq<u8>) -> Seq<Seq<u8>>
    decreases h.len(),
{
    if h.len() == 0 {
        Seq::empty()
    } else {
        let rest = values_of(h.drop_last(), name);
        if eq_ascii_ci(h.last().0, name) {
            rest.push(h.last().1)
        } else {
            rest
        }
    }
}

/// The single value of `name` when the collection holds exactly one entry of
/// that name; nothing when it holds none, or several.
pub open spec fn one_value(h: HeadersView, name: Seq<u8>) -> Option<Seq<u8>> {
    if values_of(h, name).len() == 1 {
        Some(values_of(h, name)[0])
    } else {
        None
    }
}

/// Some entry named `name` lists the token `tok`, in the RFC 6455
/// comma-separated sense.
pub open spec fn has_entry_with_token(h: HeadersView, name: Seq<u8>, tok: Seq<u8>) -> bool {
    exists|i: int|
        0 <= i < h.len() && eq_ascii_ci((#[trigger] h[i]).0, name) && list_has_token(h[i].1, tok)
}

impl Headers {
    /// An empty collection.
    pub fn new() -> (r: Headers)
        ensures
            r@ == Seq::<(Seq<u8>, Seq<u8>)>::empty(),
    {
        let r = Headers { entries: Vec::new() };
        proof {
            assert(r@ =~= Seq::<(Seq<u8>, Seq<u8>)>::empty());
        }
        r
    }

    /// Appends one entry; earlier entries, and their order, are kept.
    pub fn add(&mut self, name: Vec<u8>, value: Vec<u8>)
        ensures
            final(self)@ == old(self)@.push((name@, value@)),
    {
        let ghost before = self@;
        self.entries.push((name, value));
        proof {
            assert(self@ =~= before.push((name@, value@)));
        }
    }

    /// How many entries the collection holds.
    pub fn len(&self) -> (r: usize)
        ensures
            r == self@.len(),
    {
        self.entries.len()
    }

    /// The value of `name` when exactly one entry carries that name
    /// (ASCII case-insensitively); nothing when none or several do.
    pub fn get_one(&self, name: &[u8]) -> (r: Option<Vec<u8>>)
        ensures
            (match r {
                Some(v) => one_value(self@, name@) == Some(v@),
                None => one_value(self@, name@) is None,
            }),
    {
        let n = self.entries.len();
        let mut i: usize = 0;
        let mut count: usize = 0;
        let mut found: Option<Vec<u8>> = None;
        while i < n
            invariant
                n == self.entries@.len(),
                0 <= i <= n,
                count <= i,
                count as int == values_of(self@.take(i as int), name@).len(),
                (match found {
                    Some(v) => count >= 1 && v@ == values_of(self@.take(i as int), name@)[0],
                    None => count == 0,
                }),
            decreases n - i,
        {
            proof {
                assert(self@.take(i as int + 1).drop_last() =~= self@.take(i as int));
                assert(self@.take(i as int + 1).last() == self@[i as int]);
                assert(self@[i as int] == (self.entries@[i as int].0@, self.entries@[i as int].1@));
            }
            let entry_name: &[u8] = self.entries[i].0.as_slice();
            if eq_ignore_ascii_case(entry_name, name) {
                count = count + 1;
                if count == 1 {
                    found = Some(slice_to_vec(self.entries[i].1.as_slice()));
                }
            }
            i = i + 1;
        }
        proof {
            assert(self@.take(n as int) =~= self@);
        }
        if count == 1 {
            found
        } else {
            None
        }
    }

    /// Does some entry named `name` list the token `tok`?
    pub fn contains_token_entry(&self, name: &[u8], tok: &[u8]) -> (r: bool)
        ensures
            r == has_entry_with_token(self@, name@, tok@),
    {
        let n = self.entries.len();
        let mut i: usize = 0;
        while i < n
            invariant
                n == self.entries@.len(),
                0 <= i <= n,
                forall|j: int|
                    0 <= j < i ==> !(eq_ascii_ci((#[trigger] self@[j]).0, name@)
                        && list_has_token(self@[j].1, tok@)),
            decreases n - i,
        {
            proof {
                assert(self@[i as int] == (self.entries@[i as int].0@, self.entries@[i as int].1@));
            }
            let entry_name: &[u8] = self.entries[i].0.as_slice();
            if eq_ignore_ascii_case(entry_name, name) {
                let entry_value: &[u8] = self.entries[i].1.as_slice();
                if list_contains_token(entry_value, tok) {
                    return true;
                }
            }
            i = i + 1;
        }
        false
    }
}

} // verus!
