//! A header multimap with case-insensitive names: the order of entries and
//! repeated names are preserved, and lookups fold ASCII case, as HTTP header
//! names demand.

use vstd::prelude::*;

use crate::strings::lower_seq;
use crate::strings::lower_char_exec;

verus! {

/// An ordered multimap of header names to values.  Names compare ASCII
/// case-insensitively; repeated names keep every value, in insertion order.
pub struct Headers {
    pub entries: Vec<(String, String)>,
}

impl View for Headers {
    type V = Seq<(Seq<char>, Seq<char>)>;

    open spec fn view(&self) -> Seq<(Seq<char>, Seq<char>)> {
        self.entries.deep_view()
    }
}

/// The value of the first entry of `h` whose name equals `name` up to ASCII
/// case, or `None` when no entry matches.
pub open spec fn lookup_header(h: Seq<(Seq<char>, Seq<char>)>, name: Seq<char>) -> Option<
    Seq<char>,
>
    decreases h.len(),
{
    if h.len() == 0 {
        None
    } else if lower_seq(h[0].0) == lower_seq(name) {
        Some(h[0].1)
    } else {
        lookup_header(h.drop_first(), name)
    }
}

/// The name is `Host`, up to ASCII case.
pub open spec fn is_host_name(n: Seq<char>) -> bool {
    lower_seq(n) == lower_seq("host"@)
}

/// `h` without every entry named `Host` (up to ASCII case), order kept.
pub open spec fn drop_host_headers(h: Seq<(Seq<char>, Seq<char>)>) -> Seq<
    (Seq<char>, Seq<char>),
>
    decreases h.len(),
{
    if h.len() == 0 {
        Seq::empty()
    } else {
        let rest = drop_host_headers(h.drop_first());
        if is_host_name(h[0].0) {
            rest
        } else {
            seq![h[0]] + rest
        }
    }
}

/// The two strings are equal up to ASCII case.
pub fn eq_fold(a: &str, b: &str) -> (r: bool)
    ensures
        r == (lower_seq(a@) == lower_seq(b@)),
{
    let al = a.unicode_len();
    let bl = b.unicode_len();
    if al != bl {
        proof {
            assert(lower_seq(a@).len() == a@.len());
            assert(lower_seq(b@).len() == b@.len());
        }
        return false;
    }
    let mut i: usize = 0;
    while i < al
        invariant
            al == a@.len(),
            bl == b@.len(),
            al == bl,
            i <= al,
            forall|k: int| 0 <= k < i ==> lower_seq(a@)[k] == lower_seq(b@)[k],
        decreases al - i,
    {
        if lower_char_exec(a.get_char(i)) != lower_char_exec(b.get_char(i)) {
            assert(lower_seq(a@)[i as int] != lower_seq(b@)[i as int]);
            return false;
        }
        i += 1;
    }
    proof {
        assert(lower_seq(a@) =~= lower_seq(b@));
    }
    true
}

impl Headers {
    /// An empty header set.
    pub fn new() -> (h: Headers)
        ensures
            h@ == Seq::<(Seq<char>, Seq<char>)>::empty(),
    {
        let h = Headers { entries: Vec::new() };
        proof {
            assert(h@ =~= Seq::<(Seq<char>, Seq<char>)>::empty());
        }
        h
    }

    /// The number of entries.
    pub fn len(&self) -> (n: usize)
        ensures
            n == self@.len(),
    {
        self.entries.len()
    }

    /// Adds an entry at the end, keeping every existing one.
    pub fn append(&mut self, name: &str, value: &str)
        ensures
            final(self)@ == old(self)@.push((name@, value@)),
    {
        let entry = (String::from_str(name), String::from_str(value));
        self.entries.push(entry);
        proof {
            assert(self@ =~= old(self)@.push((name@, value@)));
        }
    }

    /// The value of the first entry whose name matches `name` up to ASCII
    /// case, or `None` when no entry does.
    pub fn get<'a>(&'a self, name: &str) -> (r: Option<&'a String>)
        ensures
            match r {
                Some(v) => lookup_header(self@, name@) == Some(v@),
                None => lookup_header(self@, name@) is None,
            },
    {
        let n = self.entries.len();
        proof {
            assert(self@.subrange(0, n as int) =~= self@);
        }
        let mut i: usize = 0;
        while i < n
            invariant
                n == self@.len(),
                n == self.entries.len(),
                i <= n,
                lookup_header(self@, name@) == lookup_header(
                    self@.subrange(i as int, n as int),
                    name@,
                ),
            decreases n - i,
        {
            if eq_fold(self.entries[i].0.as_str(), name) {
                assert(self@.subrange(i as int, n as int)[0] == self@[i as int]);
                return Some(&self.entries[i].1);
            }
            proof {
                assert(self@.subrange(i as int, n as int).drop_first() =~= self@.subrange(
                    i as int + 1,
                    n as int,
                ));
            }
            i += 1;
        }
        None
    }

    /// A copy of these headers without every `Host` entry.
    pub fn without_host(&self) -> (r: Headers)
        ensures
            r@ == drop_host_headers(self@),
    {
        let n = self.entries.len();
        let mut out = Headers { entries: Vec::new() };
        proof {
            assert(self@.subrange(0, n as int) =~= self@);
            assert(out@ =~= Seq::<(Seq<char>, Seq<char>)>::empty());
            assert(out@ + drop_host_headers(self@) =~= drop_host_headers(self@));
        }
        let mut i: usize = 0;
        while i < n
            invariant
                n == self@.len(),
                n == self.entries.len(),
                i <= n,
                drop_host_headers(self@) == out@ + drop_host_headers(
                    self@.subrange(i as int, n as int),
                ),
            decreases n - i,
        {
            let ghost prev = out@;
            let ghost rem = self@.subrange(i as int, n as int);
            proof {
                assert(rem.drop_first() =~= self@.subrange(i as int + 1, n as int));
                assert(rem[0] == self@[i as int]);
            }
            if !eq_fold(self.entries[i].0.as_str(), "host") {
                let entry = (self.entries[i].0.clone(), self.entries[i].1.clone());
                out.entries.push(entry);
                proof {
                    assert(out@ =~= prev.push(self@[i as int]));
                    assert(prev.push(self@[i as int]) =~= prev + seq![self@[i as int]]);
                    assert(prev + (seq![self@[i as int]] + drop_host_headers(
                        self@.subrange(i as int + 1, n as int),
                    )) =~= (prev + seq![self@[i as int]]) + drop_host_headers(
                        self@.subrange(i as int + 1, n as int),
                    ));
                }
            }
            i += 1;
        }
        proof {
            assert(self@.subrange(n as int, n as int) =~= Seq::<(Seq<char>, Seq<char>)>::empty());
            assert(out@ + Seq::<(Seq<char>, Seq<char>)>::empty() =~= out@);
        }
        out
    }
}

} // verus!
