use vstd::prelude::*;
use vstd::string::StringSliceAdditionalSpecFns;
use vstd::utf8::encode_utf8_decode_utf8;

verus! {

/// A pool of interned strings. Each distinct string is stored once and
/// addressed by the index it was first interned at; the pool view is the
/// sequence of interned strings, oldest first, with no duplicates.
#[derive(Debug)]
pub struct StringPool {
    strings: Vec<String>,
}

impl View for StringPool {
    type V = Seq<Seq<char>>;

    closed spec fn view(&self) -> Seq<Seq<char>> {
        self.strings@.map_values(|s: String| s@)
    }
}

/// Whether two byte slices hold the same bytes.
fn bytes_equal(a: &[u8], b: &[u8]) -> (r: bool)
    ensures
        r == (a@ == b@),
{
    if a.len() != b.len() {
        return false;
    }
    let mut i: usize = 0;
    while i < a.len()
        invariant
            a@.len() == b@.len(),
            i <= a@.len(),
            forall|j: int| 0 <= j < i ==> a@[j] == b@[j],
        decreases a@.len() - i,
    {
        if a[i] != b[i] {
            return false;
        }
        i = i + 1;
    }
    proof {
        assert(a@ =~= b@);
    }
    true
}

/// Whether two strings hold the same characters. Compares their UTF-8
/// bytes; equal bytes decode to equal characters and conversely.
fn str_equal(a: &str, b: &str) -> (r: bool)
    ensures
        r == (a@ == b@),
{
    let r = bytes_equal(a.as_bytes(), b.as_bytes());
    proof {
        if a.spec_bytes() == b.spec_bytes() {
            encode_utf8_decode_utf8(a@);
            encode_utf8_decode_utf8(b@);
        }
    }
    r
}

/// Whether a sequence of interned strings is pairwise distinct, so that
/// every string determines its index.
pub open spec fn spec_distinct(v: Seq<Seq<char>>) -> bool {
    forall|i: int, j: int| 0 <= i < j < v.len() ==> v[i] != v[j]
}

impl StringPool {
    /// The pool's strings are pairwise distinct, so every string determines
    /// its index.
    pub open spec fn wf(&self) -> bool {
        spec_distinct(self@)
    }

    /// An empty pool.
    pub fn new() -> (p: Self)
        ensures
            p.wf(),
            p@ == Seq::<Seq<char>>::empty(),
    {
        Self { strings: Vec::new() }
    }

    /// Interns `string`: returns the index it already lives at, or appends
    /// it and returns the fresh index. Either way the returned index holds
    /// `string`, and nothing else in the pool moves.
    pub fn intern(&mut self, string: &str) -> (index: u32)
        requires
            old(self).wf(),
            old(self)@.len() < 0x1_0000_0000,
        ensures
            final(self).wf(),
            index < final(self)@.len(),
            final(self)@[index as int] == string@,
            old(self)@.contains(string@) ==> final(self)@ == old(self)@,
            !old(self)@.contains(string@) ==> index == old(self)@.len() && final(self)@ == old(
                self,
            )@.push(string@),
    {
        let ghost orig = self@;
        let mut i: usize = 0;
        while i < self.strings.len()
            invariant
                self.wf(),
                self@ == orig,
                self@.len() == self.strings@.len(),
                self@.len() < 0x1_0000_0000,
                i <= self@.len(),
                forall|j: int| 0 <= j < i ==> self@[j] != string@,
            decreases self@.len() - i,
        {
            if str_equal(self.strings[i].as_str(), string) {
                proof {
                    assert(self@[i as int] == string@);
                    assert(self@.contains(string@));
                }
                return i as u32;
            }
            i = i + 1;
        }
        assert(!self@.contains(string@));
        let index = self.strings.len() as u32;
        self.strings.push(string.to_owned());
        proof {
            assert(self@ =~= orig.push(string@));
        }
        index
    }

    /// The string interned at `index`.
    pub fn get_string(&self, index: u32) -> (s: &str)
        requires
            index < self@.len(),
        ensures
            s@ == self@[index as int],
    {
        self.strings[index as usize].as_str()
    }

    /// Removes every string from the pool.
    pub fn clear(&mut self)
        ensures
            final(self).wf(),
            final(self)@ == Seq::<Seq<char>>::empty(),
    {
        self.strings.clear();
        proof {
            assert(self@ =~= Seq::<Seq<char>>::empty());
        }
    }
}

} // verus!
