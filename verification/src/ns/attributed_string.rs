//! The attributed string: text plus, for every character position, the set
//! of attributes in effect there.
//!
//! Range-taking mutations follow the native exception convention: a range
//! beyond the receiver's bounds raises, the raise is caught at the
//! boundary, and the caller gets a failure value — never an unwinding
//! crash and never a partial mutation.

use vstd::prelude::*;

use crate::ns::dictionary::Dictionary;
use crate::ns::error::Exception;
use crate::ns::error::spec_range_exception;
use crate::ns::obj::Id;
use crate::ns::range::Range;
use crate::ns::string::Str;

verus! {

/// The name of an attribute, a string key.
#[derive(Debug)]
pub struct AttrStringKey {
    key: Str,
}

impl View for AttrStringKey {
    type V = Seq<char>;

    closed spec fn view(&self) -> Seq<char> {
        self.key@
    }
}

impl AttrStringKey {
    /// Wraps a plain string as an attribute name.
    pub fn from_ns_string(string: &Str) -> (r: AttrStringKey)
        ensures
            r@ == string@,
    {
        AttrStringKey { key: string.retained() }
    }

    /// A second owner of the same name.
    pub fn retained(&self) -> (r: AttrStringKey)
        ensures
            r@ == self@,
    {
        AttrStringKey { key: self.key.retained() }
    }
}

impl PartialEq for AttrStringKey {
    /// Attribute names are equal exactly when their characters are.
    fn eq(&self, other: &AttrStringKey) -> (r: bool) {
        self.key == other.key
    }
}

impl vstd::std_specs::cmp::PartialEqSpecImpl for AttrStringKey {
    open spec fn obeys_eq_spec() -> bool {
        true
    }

    open spec fn eq_spec(&self, other: &AttrStringKey) -> bool {
        self@ == other@
    }
}

/// The attributes at one character position, reduced to name-value pairs.
pub open spec fn pairs_model(pairs: Seq<(AttrStringKey, Id)>) -> Seq<(Seq<char>, Id)> {
    pairs.map_values(|kv: (AttrStringKey, Id)| (kv.0@, kv.1))
}

/// One position's attributes with every pair under the given name removed.
pub open spec fn remove_key(per: Seq<(Seq<char>, Id)>, k: Seq<char>) -> Seq<(Seq<char>, Id)>
    decreases per.len(),
{
    if per.len() == 0 {
        Seq::empty()
    } else {
        let rest = remove_key(per.drop_last(), k);
        if per.last().0 == k {
            rest
        } else {
            rest.push(per.last())
        }
    }
}

/// One position's attributes after setting a name to a value: any earlier
/// binding of the name gives way to the new one.
pub open spec fn set_pair(per: Seq<(Seq<char>, Id)>, k: Seq<char>, v: Id) -> Seq<(Seq<char>, Id)> {
    remove_key(per, k).push((k, v))
}

/// One position's attributes after setting every entry of a dictionary in
/// order.
pub open spec fn set_pairs(per: Seq<(Seq<char>, Id)>, entries: Seq<(Seq<char>, Id)>) -> Seq<
    (Seq<char>, Id),
>
    decreases entries.len(),
{
    if entries.len() == 0 {
        per
    } else {
        set_pair(set_pairs(per, entries.drop_last()), entries.last().0, entries.last().1)
    }
}

/// The shared contents of an attributed string: the text and one attribute
/// list per character position.
struct Contents {
    text: Str,
    attrs: Vec<Vec<(AttrStringKey, Id)>>,
}

impl Contents {
    spec fn wf(self) -> bool {
        self.attrs@.len() == self.text@.len()
    }

    spec fn text_model(self) -> Seq<char> {
        self.text@
    }

    spec fn attrs_model(self) -> Seq<Seq<(Seq<char>, Id)>> {
        self.attrs@.map_values(|per: Vec<(AttrStringKey, Id)>| pairs_model(per@))
    }
}

/// A copy of one position's attribute list, equal under the model.
fn copy_pairs(pairs: &Vec<(AttrStringKey, Id)>) -> (r: Vec<(AttrStringKey, Id)>)
    ensures
        pairs_model(r@) == pairs_model(pairs@),
{
    let mut out: Vec<(AttrStringKey, Id)> = Vec::new();
    let n = pairs.len();
    let mut i: usize = 0;
    while i < n
        invariant
            n == pairs@.len(),
            i <= n,
            pairs_model(out@) == pairs_model(pairs@.take(i as int)),
        decreases n - i,
    {
        let ghost prev = out@;
        let k = pairs[i].0.retained();
        let v = pairs[i].1;
        out.push((k, v));
        proof {
            assert(pairs@.take(i + 1).drop_last() =~= pairs@.take(i as int));
            assert(pairs_model(prev).len() == pairs_model(pairs@.take(i as int)).len());
            assert(pairs_model(pairs@.take(i as int)).len() == pairs@.take(i as int).len());
            assert(prev.len() == i);
            assert(pairs_model(out@).len() == i + 1);
            assert(forall|q: int|
                0 <= q < i ==> pairs_model(out@)[q] == #[trigger] pairs_model(prev)[q]);
            assert(pairs_model(out@)[i as int] == (k@, v));
            assert(pairs_model(pairs@.take(i + 1))[i as int] == (pairs@[i as int].0@,
            pairs@[i as int].1));
            assert(forall|q: int|
                0 <= q < i ==> #[trigger] pairs_model(pairs@.take(i + 1))[q] == pairs_model(
                    pairs@.take(i as int),
                )[q]);
            assert(pairs_model(out@) =~~= pairs_model(pairs@.take(i + 1)));
        }
        i = i + 1;
    }
    proof {
        assert(pairs@.take(n as int) =~= pairs@);
    }
    out
}

/// One position's attribute list with every pair under a name removed.
fn remove_key_exec(pairs: &Vec<(AttrStringKey, Id)>, key: &AttrStringKey) -> (r: Vec<
    (AttrStringKey, Id),
>)
    ensures
        pairs_model(r@) == remove_key(pairs_model(pairs@), key@),
{
    let mut out: Vec<(AttrStringKey, Id)> = Vec::new();
    let n = pairs.len();
    let mut i: usize = 0;
    while i < n
        invariant
            n == pairs@.len(),
            i <= n,
            pairs_model(out@) == remove_key(pairs_model(pairs@.take(i as int)), key@),
        decreases n - i,
    {
        let keep = !(pairs[i].0 == *key);
        if keep {
            let k = pairs[i].0.retained();
            let v = pairs[i].1;
            out.push((k, v));
        }
        proof {
            assert(pairs@.take(i + 1).drop_last() =~= pairs@.take(i as int));
            assert(pairs_model(pairs@.take(i + 1)).drop_last() =~= pairs_model(
                pairs@.take(i as int),
            ));
            assert(pairs_model(pairs@.take(i + 1)).last() == (pairs@[i as int].0@,
            pairs@[i as int].1));
            if keep {
                assert(pairs_model(out@) =~= remove_key(pairs_model(pairs@.take(i + 1)), key@));
            } else {
                assert(pairs_model(out@) =~= remove_key(pairs_model(pairs@.take(i + 1)), key@));
            }
        }
        i = i + 1;
    }
    proof {
        assert(pairs@.take(n as int) =~= pairs@);
    }
    out
}

/// One position's attribute list after setting a name to a value.
fn set_pair_exec(pairs: &Vec<(AttrStringKey, Id)>, key: &AttrStringKey, val: &Id) -> (r: Vec<
    (AttrStringKey, Id),
>)
    ensures
        pairs_model(r@) == set_pair(pairs_model(pairs@), key@, *val),
{
    let mut out = remove_key_exec(pairs, key);
    let ghost removed = out@;
    out.push((key.retained(), *val));
    proof {
        assert(pairs_model(out@) =~= pairs_model(removed).push((key@, *val)));
    }
    out
}

/// A deep copy of contents, equal under the model.
fn copy_contents(c: &Contents) -> (r: Contents)
    ensures
        r.text_model() == c.text_model(),
        r.attrs_model() == c.attrs_model(),
        c.wf() ==> r.wf(),
{
    let text = c.text.retained();
    let mut attrs: Vec<Vec<(AttrStringKey, Id)>> = Vec::new();
    let n = c.attrs.len();
    let mut i: usize = 0;
    while i < n
        invariant
            n == c.attrs@.len(),
            i <= n,
            attrs@.len() == i,
            forall|p: int|
                0 <= p < i ==> pairs_model(#[trigger] attrs@[p]@) == pairs_model(c.attrs@[p]@),
        decreases n - i,
    {
        let per = copy_pairs(&c.attrs[i]);
        attrs.push(per);
        i = i + 1;
    }
    let r = Contents { text, attrs };
    proof {
        assert(r.attrs_model() =~= c.attrs_model());
    }
    r
}

/// Contents holding the given text with no attributes anywhere.
fn contents_with_text(text: &Str) -> (r: Contents)
    ensures
        r.wf(),
        r.text_model() == text@,
        r.attrs_model().len() == text@.len(),
        forall|p: int|
            0 <= p < text@.len() ==> #[trigger] r.attrs_model()[p] == Seq::<(Seq<char>, Id)>::empty(),
{
    let owned = text.retained();
    let n = owned.len();
    let mut attrs: Vec<Vec<(AttrStringKey, Id)>> = Vec::new();
    let mut i: usize = 0;
    while i < n
        invariant
            i <= n,
            attrs@.len() == i,
            forall|p: int| 0 <= p < i ==> (#[trigger] attrs@[p])@.len() == 0,
        decreases n - i,
    {
        attrs.push(Vec::new());
        i = i + 1;
    }
    let r = Contents { text: owned, attrs };
    proof {
        assert(forall|p: int|
            0 <= p < text@.len() ==> #[trigger] r.attrs_model()[p] =~= Seq::<(
                Seq<char>,
                Id,
            )>::empty());
    }
    r
}

/// An immutable attributed string.
pub struct AttrString {
    c: Contents,
}

/// A mutable attributed string, sharing the immutable one's model.
pub struct AttrStringMut {
    c: Contents,
}

impl AttrString {
    /// One attribute list per character position.
    pub closed spec fn wf(self) -> bool {
        self.c.wf()
    }

    /// The character sequence held.
    pub closed spec fn text_model(self) -> Seq<char> {
        self.c.text_model()
    }

    /// For every position, the name-value pairs in effect there.
    pub closed spec fn attrs_model(self) -> Seq<Seq<(Seq<char>, Id)>> {
        self.c.attrs_model()
    }

    /// The initializer behind [`AttrString::with_string`]: the given text,
    /// no attributes anywhere.
    pub fn init_with_string(str: &Str) -> (r: AttrString)
        ensures
            r.wf(),
            r.text_model() == str@,
            r.attrs_model().len() == str@.len(),
            forall|p: int|
                0 <= p < str@.len() ==> #[trigger] r.attrs_model()[p] == Seq::<(
                    Seq<char>,
                    Id,
                )>::empty(),
    {
        AttrString { c: contents_with_text(str) }
    }

    /// The initializer behind [`AttrString::with_attr_string`]: an equal
    /// copy of another attributed string.
    pub fn init_with_attr_string(str: &AttrString) -> (r: AttrString)
        requires
            str.wf(),
        ensures
            r.wf(),
            r.text_model() == str.text_model(),
            r.attrs_model() == str.attrs_model(),
    {
        AttrString { c: copy_contents(&str.c) }
    }

    /// A fresh attributed string over plain text. The returned handle is
    /// owned: the factory transfers its single retain to the caller.
    pub fn with_string(str: &Str) -> (r: AttrString)
        ensures
            r.wf(),
            r.text_model() == str@,
            r.attrs_model().len() == str@.len(),
            forall|p: int|
                0 <= p < str@.len() ==> #[trigger] r.attrs_model()[p] == Seq::<(
                    Seq<char>,
                    Id,
                )>::empty(),
    {
        Self::init_with_string(str)
    }

    /// A fresh attributed string equal to another one.
    pub fn with_attr_string(str: &AttrString) -> (r: AttrString)
        requires
            str.wf(),
        ensures
            r.wf(),
            r.text_model() == str.text_model(),
            r.attrs_model() == str.attrs_model(),
    {
        Self::init_with_attr_string(str)
    }

    /// The current backing text.
    pub fn string(&self) -> (r: &Str)
        ensures
            r@ == self.text_model(),
    {
        &self.c.text
    }

    /// The number of characters.
    pub fn len(&self) -> (n: usize)
        ensures
            n == self.text_model().len(),
    {
        self.c.text.len()
    }

    pub fn is_empty(&self) -> (r: bool)
        ensures
            r == (self.text_model().len() == 0),
    {
        self.len() == 0
    }

    /// The attributes in effect at one position. An index beyond the last
    /// character raises on the native side; the raise is caught and comes
    /// back as the failure value, exactly when `index` is out of bounds.
    /// The effective-range slot is for the native side to fill; the model
    /// leaves it untouched.
    pub fn attrs_at(&self, index: usize, effective_range: Option<&Range>) -> (r: Result<
        Dictionary<AttrStringKey, Id>,
        Exception,
    >)
        requires
            self.wf(),
        ensures
            r is Ok <==> index < self.text_model().len(),
            index < self.text_model().len() ==> pairs_model(r->Ok_0@) == self.attrs_model()[
                index as int],
            index >= self.text_model().len() ==> r == Err::<
                Dictionary<AttrStringKey, Id>,
                Exception,
            >(spec_range_exception()),
    {
        let _ = effective_range;
        if index >= self.c.text.len() {
            Err(Exception::range_exception())
        } else {
            let pairs = copy_pairs(&self.c.attrs[index]);
            let mut dict: Dictionary<AttrStringKey, Id> = Dictionary::new();
            let ghost pairs_snapshot = pairs@;
            let mut pairs = pairs;
            let mut backwards: Vec<(AttrStringKey, Id)> = Vec::new();
            while pairs.len() > 0
                invariant
                    pairs@ == pairs_snapshot.take(pairs@.len() as int),
                    backwards@.len() + pairs@.len() == pairs_snapshot.len(),
                    forall|q: int|
                        0 <= q < backwards@.len() ==> #[trigger] backwards@[q]
                            == pairs_snapshot[pairs_snapshot.len() - 1 - q],
                decreases pairs@.len(),
            {
                let e = pairs.pop().unwrap();
                backwards.push(e);
            }
            while backwards.len() > 0
                invariant
                    dict@.len() + backwards@.len() == pairs_snapshot.len(),
                    forall|q: int|
                        0 <= q < backwards@.len() ==> #[trigger] backwards@[q]
                            == pairs_snapshot[pairs_snapshot.len() - 1 - q],
                    forall|q: int|
                        0 <= q < dict@.len() ==> #[trigger] dict@[q] == pairs_snapshot[q],
                decreases backwards@.len(),
            {
                let e = backwards.pop().unwrap();
                dict.push_entry(e.0, e.1);
            }
            proof {
                assert(dict@ =~= pairs_snapshot);
            }
            Ok(dict)
        }
    }

    /// An equal immutable copy. Mutating any copy later cannot reach this
    /// one: each copy owns its contents.
    pub fn copy(&self) -> (r: AttrString)
        requires
            self.wf(),
        ensures
            r.wf(),
            r.text_model() == self.text_model(),
            r.attrs_model() == self.attrs_model(),
    {
        AttrString { c: copy_contents(&self.c) }
    }

    /// An equal mutable copy, with the same independence.
    pub fn copy_mut(&self) -> (r: AttrStringMut)
        requires
            self.wf(),
        ensures
            r.wf(),
            r.text_model() == self.text_model(),
            r.attrs_model() == self.attrs_model(),
    {
        AttrStringMut { c: copy_contents(&self.c) }
    }
}

impl AttrStringMut {
    /// One attribute list per character position.
    pub closed spec fn wf(self) -> bool {
        self.c.wf()
    }

    /// The character sequence held.
    pub closed spec fn text_model(self) -> Seq<char> {
        self.c.text_model()
    }

    /// For every position, the name-value pairs in effect there.
    pub closed spec fn attrs_model(self) -> Seq<Seq<(Seq<char>, Id)>> {
        self.c.attrs_model()
    }

    /// The current backing text.
    pub fn string_mut(&mut self) -> (r: &Str)
        ensures
            *final(self) == *old(self),
            r@ == old(self).text_model(),
    {
        &self.c.text
    }

    /// The number of characters.
    pub fn len(&self) -> (n: usize)
        ensures
            n == self.text_model().len(),
    {
        self.c.text.len()
    }

    /// An equal immutable copy.
    pub fn copy(&self) -> (r: AttrString)
        requires
            self.wf(),
        ensures
            r.wf(),
            r.text_model() == self.text_model(),
            r.attrs_model() == self.attrs_model(),
    {
        AttrString { c: copy_contents(&self.c) }
    }

    /// An equal mutable copy.
    pub fn copy_mut(&self) -> (r: AttrStringMut)
        requires
            self.wf(),
        ensures
            r.wf(),
            r.text_model() == self.text_model(),
            r.attrs_model() == self.attrs_model(),
    {
        AttrStringMut { c: copy_contents(&self.c) }
    }

    /// Sets one attribute over a range of characters. A range beyond the
    /// receiver's bounds raises on the native side; the raise is caught
    /// and comes back as the failure value, exactly when the range does
    /// not fit, and the receiver is then unchanged.
    pub fn add_attr(&mut self, name: &AttrStringKey, val: &Id, range: Range) -> (r: Result<
        (),
        Exception,
    >)
        requires
            old(self).wf(),
        ensures
            final(self).wf(),
            r is Ok <==> range.within(old(self).text_model().len() as int),
            r is Err ==> r == Err::<(), Exception>(spec_range_exception()) && *final(self) == *old(self),
            final(self).text_model() == old(self).text_model(),
            final(self).attrs_model().len() == old(self).attrs_model().len(),
            r is Ok ==> forall|p: int|
                0 <= p < old(self).attrs_model().len() ==> #[trigger] final(self).attrs_model()[p]
                    == (if range.contains(p) {
                    set_pair(old(self).attrs_model()[p], name@, *val)
                } else {
                    old(self).attrs_model()[p]
                }),
    {
        let n = self.c.attrs.len();
        if !range.fits(n) {
            return Err(Exception::range_exception());
        }
        let mut out: Vec<Vec<(AttrStringKey, Id)>> = Vec::new();
        let mut j: usize = 0;
        while j < n
            invariant
                n == self.c.attrs@.len(),
                self == old(self),
                j <= n,
                out@.len() == j,
                forall|p: int|
                    0 <= p < j ==> pairs_model(#[trigger] out@[p]@) == (if range.contains(p) {
                        set_pair(pairs_model(old(self).c.attrs@[p]@), name@, *val)
                    } else {
                        pairs_model(old(self).c.attrs@[p]@)
                    }),
            decreases n - j,
        {
            let per = if j >= range.location && j - range.location < range.length {
                set_pair_exec(&self.c.attrs[j], name, val)
            } else {
                copy_pairs(&self.c.attrs[j])
            };
            out.push(per);
            j = j + 1;
        }
        self.c.attrs = out;
        Ok(())
    }

    /// Sets every entry of a dictionary over a range, in entry order, with
    /// the same caught-failure behavior as [`AttrStringMut::add_attr`].
    pub fn add_attrs(&mut self, attrs: &Dictionary<AttrStringKey, Id>, range: Range) -> (r: Result<
        (),
        Exception,
    >)
        requires
            old(self).wf(),
        ensures
            final(self).wf(),
            r is Ok <==> range.within(old(self).text_model().len() as int),
            r is Err ==> r == Err::<(), Exception>(spec_range_exception()) && *final(self) == *old(self),
            final(self).text_model() == old(self).text_model(),
            final(self).attrs_model().len() == old(self).attrs_model().len(),
            r is Ok ==> forall|p: int|
                0 <= p < old(self).attrs_model().len() ==> #[trigger] final(self).attrs_model()[p]
                    == (if range.contains(p) {
                    set_pairs(old(self).attrs_model()[p], pairs_model(attrs@))
                } else {
                    old(self).attrs_model()[p]
                }),
    {
        let n = self.c.attrs.len();
        if !range.fits(n) {
            return Err(Exception::range_exception());
        }
        let m = attrs.len();
        let mut i: usize = 0;
        while i < m
            invariant
                m == attrs@.len(),
                i <= m,
                self.wf(),
                self.c.attrs@.len() == old(self).c.attrs@.len(),
                self.text_model() == old(self).text_model(),
                range.within(old(self).text_model().len() as int),
                forall|p: int|
                    0 <= p < old(self).attrs_model().len() ==> #[trigger] self.attrs_model()[p] == (
                    if range.contains(p) {
                        set_pairs(old(self).attrs_model()[p], pairs_model(attrs@).take(i as int))
                    } else {
                        old(self).attrs_model()[p]
                    }),
            decreases m - i,
        {
            let entry = attrs.get(i);
            let key = entry.0.retained();
            let val = entry.1;
            let ghost before = self.attrs_model();
            let res = self.add_attr(&key, &val, range);
            proof {
                assert(res is Ok);
                assert(pairs_model(attrs@).take(i + 1).drop_last() =~= pairs_model(attrs@).take(
                    i as int,
                ));
                assert(forall|p: int|
                    0 <= p < old(self).attrs_model().len() && range.contains(p)
                        ==> #[trigger] self.attrs_model()[p] == set_pairs(
                        old(self).attrs_model()[p],
                        pairs_model(attrs@).take(i + 1),
                    ));
            }
            i = i + 1;
        }
        proof {
            assert(pairs_model(attrs@).take(m as int) =~= pairs_model(attrs@));
        }
        Ok(())
    }

    /// Removes one attribute from a range of characters, with the same
    /// caught-failure behavior as [`AttrStringMut::add_attr`].
    pub fn remove_attr(&mut self, name: &AttrStringKey, range: Range) -> (r: Result<(), Exception>)
        requires
            old(self).wf(),
        ensures
            final(self).wf(),
            r is Ok <==> range.within(old(self).text_model().len() as int),
            r is Err ==> r == Err::<(), Exception>(spec_range_exception()) && *final(self) == *old(self),
            final(self).text_model() == old(self).text_model(),
            final(self).attrs_model().len() == old(self).attrs_model().len(),
            r is Ok ==> forall|p: int|
                0 <= p < old(self).attrs_model().len() ==> #[trigger] final(self).attrs_model()[p]
                    == (if range.contains(p) {
                    remove_key(old(self).attrs_model()[p], name@)
                } else {
                    old(self).attrs_model()[p]
                }),
    {
        let n = self.c.attrs.len();
        if !range.fits(n) {
            return Err(Exception::range_exception());
        }
        let mut out: Vec<Vec<(AttrStringKey, Id)>> = Vec::new();
        let mut j: usize = 0;
        while j < n
            invariant
                n == self.c.attrs@.len(),
                self == old(self),
                j <= n,
                out@.len() == j,
                forall|p: int|
                    0 <= p < j ==> pairs_model(#[trigger] out@[p]@) == (if range.contains(p) {
                        remove_key(pairs_model(old(self).c.attrs@[p]@), name@)
                    } else {
                        pairs_model(old(self).c.attrs@[p]@)
                    }),
            decreases n - j,
        {
            let per = if j >= range.location && j - range.location < range.length {
                remove_key_exec(&self.c.attrs[j], name)
            } else {
                copy_pairs(&self.c.attrs[j])
            };
            out.push(per);
            j = j + 1;
        }
        self.c.attrs = out;
        Ok(())
    }

    /// Appends another attributed string: its characters after this one's,
    /// each keeping the attributes it arrived with.
    pub fn append_attr_string(&mut self, val: &AttrString)
        requires
            old(self).wf(),
            val.wf(),
        ensures
            final(self).wf(),
            final(self).text_model() == old(self).text_model() + val.text_model(),
            final(self).attrs_model() == old(self).attrs_model() + val.attrs_model(),
    {
        self.c.text.push_str(val.c.text.as_str());
        let n = val.c.attrs.len();
        let mut i: usize = 0;
        while i < n
            invariant
                n == val.c.attrs@.len(),
                i <= n,
                self.c.text@ == old(self).c.text@ + val.c.text@,
                self.c.attrs@.len() == old(self).c.attrs@.len() + i,
                forall|p: int|
                    0 <= p < old(self).c.attrs@.len() ==> pairs_model(
                        #[trigger] self.c.attrs@[p]@,
                    ) == pairs_model(old(self).c.attrs@[p]@),
                forall|p: int|
                    old(self).c.attrs@.len() <= p < old(self).c.attrs@.len() + i ==> pairs_model(
                        #[trigger] self.c.attrs@[p]@,
                    ) == pairs_model(val.c.attrs@[p - old(self).c.attrs@.len()]@),
            decreases n - i,
        {
            let per = copy_pairs(&val.c.attrs[i]);
            self.c.attrs.push(per);
            i = i + 1;
        }
        proof {
            assert(self.attrs_model().len() == old(self).attrs_model().len()
                + val.attrs_model().len());
            assert(forall|p: int|
                0 <= p < old(self).c.attrs@.len() ==> #[trigger] self.attrs_model()[p] == old(
                self,
                ).attrs_model()[p]);
            assert(forall|p: int|
                old(self).c.attrs@.len() <= p < self.c.attrs@.len()
                    ==> #[trigger] self.attrs_model()[p] == val.attrs_model()[p - old(
                    self,
                ).c.attrs@.len()]);
            assert(self.attrs_model() =~~= old(self).attrs_model() + val.attrs_model());
        }
    }
}

} // verus!
