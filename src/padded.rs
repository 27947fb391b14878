//! Items each followed by a separator, handed out one at a time.
use vstd::prelude::*;
use crate::text::{padded, views};

verus! {

/// Each text followed by `sep`, as a list of texts.
pub open spec fn padded_items(ts: Seq<Seq<char>>, sep: Seq<char>) -> Seq<Seq<char>>
    decreases ts.len(),
{
    if ts.len() == 0 {
        Seq::empty()
    } else {
        seq![ts[0], sep] + padded_items(ts.drop_first(), sep)
    }
}

/// The texts of a list, one after another.
pub open spec fn flatten(ts: Seq<Seq<char>>) -> Seq<char>
    decreases ts.len(),
{
    if ts.len() == 0 {
        Seq::empty()
    } else {
        ts[0] + flatten(ts.drop_first())
    }
}

/// Items with a separator after each: `a, sep, b, sep, ...`.
pub struct Padded {
    items: Vec<String>,
    separator: String,
    next_item: usize,
    separator_due: bool,
}

impl Padded {
    /// The position of the next item is within the items.
    pub closed spec fn wf(&self) -> bool {
        self.next_item <= self.items@.len()
    }

    /// What is still to be handed out, in order.
    pub closed spec fn rest(&self) -> Seq<Seq<char>> {
        let tail = padded_items(views(self.items@).skip(self.next_item as int), self.separator@);
        if self.separator_due {
            seq![self.separator@] + tail
        } else {
            tail
        }
    }

    /// The items, each to be followed by `separator`.
    pub fn new(items: Vec<String>, separator: String) -> (r: Padded)
        ensures
            r.wf(),
            r.rest() == padded_items(views(items@), separator@),
    {
        let r = Padded { items, separator, next_item: 0, separator_due: false };
        assert(views(r.items@).skip(0) =~= views(r.items@));
        r
    }

    /// The next item or separator, if any is left.
    pub fn next(&mut self) -> (r: Option<String>)
        requires
            old(self).wf(),
        ensures
            final(self).wf(),
            match r {
                Some(x) => old(self).rest() == seq![x@] + final(self).rest(),
                None => old(self).rest().len() == 0 && final(self).rest().len() == 0,
            },
    {
        if self.separator_due {
            self.separator_due = false;
            return Some(self.separator.clone());
        }
        if self.next_item < self.items.len() {
            let x = self.items[self.next_item].clone();
            let ghost ts = views(self.items@);
            let ghost k = self.next_item as int;
            assert(ts.skip(k).drop_first() =~= ts.skip(k + 1));
            self.next_item = self.next_item + 1;
            self.separator_due = true;
            let ghost tail = padded_items(ts.skip(k + 1), self.separator@);
            assert(seq![ts[k], self.separator@] + tail =~= seq![x@] + (seq![self.separator@] + tail));
            Some(x)
        } else {
            None
        }
    }

    /// Everything still to be handed out, one after another.
    pub fn text(self) -> (r: String)
        requires
            self.wf(),
        ensures
            r@ == flatten(self.rest()),
    {
        let mut p = self;
        let ghost all = p.rest();
        let mut r = String::new();
        assert(Seq::<char>::empty() + flatten(all) =~= flatten(all));
        loop
            invariant
                p.wf(),
                flatten(all) == r@ + flatten(p.rest()),
            ensures
                flatten(all) == r@,
            decreases p.rest().len(),
        {
            match p.next() {
                Some(x) => {
                    assert((seq![x@] + p.rest()).drop_first() =~= p.rest());
                    assert(r@ + (x@ + flatten(p.rest())) =~= (r@ + x@) + flatten(p.rest()));
                    r.append(x.as_str());
                },
                None => {
                    assert(r@ + Seq::<char>::empty() =~= r@);
                    break;
                },
            }
        }
        r
    }
}

/// Turning a list of texts into its padded form.
pub trait PaddedT: Sized {
    fn padded(self, separator: String) -> Padded;
}

impl PaddedT for Vec<String> {
    fn padded(self, separator: String) -> (r: Padded)
        ensures
            r.wf(),
            r.rest() == padded_items(views(self@), separator@),
    {
        Padded::new(self, separator)
    }
}

/// Each text followed by `sep`, one after another.
pub fn padded_text(ts: Vec<String>, sep: &str) -> (r: String)
    ensures
        r@ == padded(views(ts@), sep@),
{
    let ghost tv = views(ts@);
    let p = ts.padded(String::from_str(sep));
    let r = p.text();
    proof {
        lemma_flatten_padded(tv, sep@);
    }
    r
}

/// The padded items, one after another, are the padded layout of the texts.
pub proof fn lemma_flatten_padded(ts: Seq<Seq<char>>, sep: Seq<char>)
    ensures
        flatten(padded_items(ts, sep)) == padded(ts, sep),
    decreases ts.len(),
{
    reveal_strlit("");
    if ts.len() > 0 {
        let init = ts.drop_last();
        lemma_flatten_padded(init, sep);
        lemma_padded_items_push(init, ts.last(), sep);
        assert(init.push(ts.last()) =~= ts);
        lemma_flatten_append(padded_items(init, sep), seq![ts.last(), sep]);
        let rest = seq![ts.last(), sep];
        assert(rest.drop_first() =~= seq![sep]);
        assert(seq![sep].drop_first() =~= Seq::<Seq<char>>::empty());
        assert(flatten(Seq::<Seq<char>>::empty()) == Seq::<char>::empty());
        assert(flatten(seq![sep]) == sep + Seq::<char>::empty());
        assert(flatten(rest) == ts.last() + (sep + Seq::<char>::empty()));
        assert(sep + Seq::<char>::empty() =~= sep);
        if ts.len() == 1 {
            assert(init =~= Seq::<Seq<char>>::empty());
            assert(Seq::<char>::empty() + (ts.last() + sep) =~= ""@ + ts.last() + sep);
        } else {
            assert(padded(ts, sep) == padded(init, sep) + ""@ + ""@ + ts.last() + sep);
            assert(padded(init, sep) + (ts.last() + sep) =~= padded(init, sep) + ""@ + ""@ + ts.last()
                + sep);
        }
    }
}

proof fn lemma_padded_items_push(ts: Seq<Seq<char>>, x: Seq<char>, sep: Seq<char>)
    ensures
        padded_items(ts.push(x), sep) == padded_items(ts, sep) + seq![x, sep],
    decreases ts.len(),
{
    if ts.len() == 0 {
        assert(ts.push(x).drop_first() =~= Seq::<Seq<char>>::empty());
        assert(padded_items(Seq::<Seq<char>>::empty(), sep) == Seq::<Seq<char>>::empty());
        assert(ts.push(x)[0] == x);
        assert(seq![x, sep] + Seq::<Seq<char>>::empty() =~= seq![x, sep]);
        assert(Seq::<Seq<char>>::empty() + seq![x, sep] =~= seq![x, sep]);
    } else {
        assert(ts.push(x)[0] == ts[0]);
        assert(ts.push(x).drop_first() =~= ts.drop_first().push(x));
        lemma_padded_items_push(ts.drop_first(), x, sep);
        assert(seq![ts[0], sep] + (padded_items(ts.drop_first(), sep) + seq![x, sep]) =~= (seq![
            ts[0],
            sep,
        ] + padded_items(ts.drop_first(), sep)) + seq![x, sep]);
    }
}

proof fn lemma_flatten_append(a: Seq<Seq<char>>, b: Seq<Seq<char>>)
    ensures
        flatten(a + b) == flatten(a) + flatten(b),
    decreases a.len(),
{
    if a.len() == 0 {
        assert(a + b =~= b);
        assert(Seq::<char>::empty() + flatten(b) =~= flatten(b));
    } else {
        assert((a + b).drop_first() =~= a.drop_first() + b);
        lemma_flatten_append(a.drop_first(), b);
        assert(a[0] + (flatten(a.drop_first()) + flatten(b)) =~= (a[0] + flatten(a.drop_first())) + flatten(b));
    }
}

} // verus!
