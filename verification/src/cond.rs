//! The Condition Builder: a dynamic predicate held as an ordered list of
//! comparison fragments and typed arguments. Rendering produces the clause
//! text without the leading `WHERE` keyword and numbers positional
//! placeholders from 1 in the order arguments were added, so the rendered
//! placeholders and the argument list stay index-synchronized.

use vstd::prelude::*;
use vstd::string::*;
use crate::text;
use crate::value::{Val, ValV, val_views};

verus! {

/// One rendered comparison: the fragment, a space, and its positional
/// placeholder.
pub open spec fn cond_frag(lhs: Seq<char>, index: nat) -> Seq<char> {
    lhs + seq![' '] + text::placeholder_text(index)
}

/// The rendered comparisons, numbered from 1 in order.
pub open spec fn cond_frags(lhss: Seq<Seq<char>>) -> Seq<Seq<char>>
    decreases lhss.len(),
{
    if lhss.len() == 0 {
        Seq::empty()
    } else {
        cond_frags(lhss.drop_last()) + seq![cond_frag(lhss.last(), lhss.len() as nat)]
    }
}

/// The clause text: comparisons joined with `AND`, without the leading
/// `WHERE` keyword.
pub open spec fn cond_clause(lhss: Seq<Seq<char>>) -> Seq<char> {
    text::join_sep(cond_frags(lhss), " AND "@)
}

/// A dynamic predicate: ordered comparison fragments plus their arguments,
/// built once per query.
#[derive(Clone, Debug)]
pub struct Cond {
    pub lhss: Vec<String>,
    pub args: Vec<Val>,
}

/// The mathematical model of a [`Cond`].
pub struct CondV {
    pub lhss: Seq<Seq<char>>,
    pub args: Seq<ValV>,
}

impl View for Cond {
    type V = CondV;

    open spec fn view(&self) -> CondV {
        CondV { lhss: self.lhss@.map_values(|s: String| s@), args: val_views(self.args@) }
    }
}

impl Cond {
    /// One comparison fragment per argument.
    pub open spec fn wf(self) -> bool {
        self@.lhss.len() == self@.args.len()
    }

    /// An empty predicate.
    pub fn new() -> (c: Cond)
        ensures
            c@.lhss.len() == 0,
            c@.args.len() == 0,
            c.wf(),
    {
        Cond { lhss: Vec::new(), args: Vec::new() }
    }

    /// Appends one comparison (for example `name =`) and the argument its
    /// placeholder binds.
    pub fn push(&mut self, lhs: &str, val: Val)
        ensures
            final(self)@.lhss == old(self)@.lhss.push(lhs@),
            final(self)@.args == old(self)@.args.push(val@),
            old(self).wf() ==> final(self).wf(),
    {
        let ghost pre = self@;
        self.lhss.push(lhs.to_owned());
        self.args.push(val);
        proof {
            assert(self@.lhss =~= pre.lhss.push(lhs@));
            assert(self@.args =~= pre.args.push(val@));
        }
    }

    /// Whether any argument was added.
    pub fn has_args(&self) -> (b: bool)
        ensures
            b == (self@.args.len() > 0),
    {
        self.args.len() > 0
    }

    /// Renders the clause text, without the leading `WHERE` keyword.
    pub fn build(&self) -> (s: String)
        ensures
            s@ == cond_clause(self@.lhss),
    {
        let ghost lv = self@.lhss;
        let mut frags: Vec<String> = Vec::new();
        let mut i: usize = 0;
        while i < self.lhss.len()
            invariant
                i <= self.lhss.len(),
                lv == self@.lhss,
                frags@.map_values(|s: String| s@) == cond_frags(lv.take(i as int)),
            decreases self.lhss.len() - i,
        {
            proof {
                reveal_strlit(" ");
            }
            let mut frag = self.lhss[i].clone();
            frag.append(" ");
            let ph = text::fmt_placeholder(i + 1);
            frag.append(ph.as_str());
            proof {
                assert(lv[i as int] == self.lhss@[i as int]@);
                assert(frag@ =~= cond_frag(lv[i as int], (i + 1) as nat));
            }
            frags.push(frag);
            proof {
                let pre = lv.take(i as int);
                let post = lv.take(i + 1 as int);
                assert(post.drop_last() =~= pre);
                assert(post.last() == lv[i as int]);
                assert(frags@.map_values(|s: String| s@) =~= cond_frags(post));
            }
            i = i + 1;
        }
        proof {
            assert(lv.take(self.lhss@.len() as int) =~= lv);
        }
        text::join_sep_strs(&frags, " AND ")
    }
}

} // verus!
