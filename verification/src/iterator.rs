//! A lazy iteration over all the properties that transition on a style.
//!
//! Each entry of the style's transition-property list is either a longhand
//! (yielded directly), a shorthand (expanded into its longhands, every one
//! of them carrying the originating list index, so that duration and
//! timing-function lists indexed by declaration entry still line up), a
//! custom property (yielded by name), or unsupported (skipped).

use vstd::prelude::*;
use crate::catalog::{
    shorthand_longhand_order, LonghandId, NonCustomPropertyId, OwnedPropertyDeclarationId,
    TransitionProperty,
};
use crate::style::ComputedValues;

verus! {

/// A single iteration of the [`TransitionPropertyIterator`].
#[derive(Clone, Copy, Debug, PartialEq, Eq, Structural)]
pub struct TransitionPropertyIteration {
    /// The id of the longhand or custom property for this iteration.
    pub property: OwnedPropertyDeclarationId,
    /// The index of the originating entry in the style's list of transition
    /// properties.
    pub index: usize,
}

/// An in-progress expansion of one shorthand into its longhands.
struct LonghandExpansion {
    items: Vec<LonghandId>,
    pos: usize,
}

/// An iterator over all the properties that transition on a given style.
/// Single-pass and finite; restartable only by reconstruction.
pub struct TransitionPropertyIterator {
    list: Vec<TransitionProperty>,
    cur: usize,
    longhand_iterator: Option<LonghandExpansion>,
}

/// The iterations one list entry expands to, all carrying that entry's list
/// index.
pub open spec fn entry_expansion(tp: TransitionProperty, index: usize) -> Seq<
    TransitionPropertyIteration,
> {
    match tp {
        TransitionProperty::NonCustom(NonCustomPropertyId::Longhand(id)) => seq![
            TransitionPropertyIteration {
                property: OwnedPropertyDeclarationId::Longhand(id),
                index,
            },
        ],
        TransitionProperty::NonCustom(NonCustomPropertyId::Shorthand(sh)) => shorthand_longhand_order(
            sh,
        ).map_values(
            |lh: LonghandId| TransitionPropertyIteration {
                property: OwnedPropertyDeclarationId::Longhand(lh),
                index,
            },
        ),
        TransitionProperty::Custom(name) => seq![
            TransitionPropertyIteration {
                property: OwnedPropertyDeclarationId::Custom(name),
                index,
            },
        ],
        TransitionProperty::Unsupported(_) => Seq::empty(),
    }
}

/// The iterations the list expands to from entry `i` on.
pub open spec fn expansion_from(list: Seq<TransitionProperty>, i: int) -> Seq<
    TransitionPropertyIteration,
>
    decreases list.len() - i,
{
    if i < 0 || i >= list.len() {
        Seq::empty()
    } else {
        entry_expansion(list[i], i as usize) + expansion_from(list, i + 1)
    }
}

/// The full expansion of a transition-property list.
pub open spec fn transition_expansion(list: Seq<TransitionProperty>) -> Seq<
    TransitionPropertyIteration,
> {
    expansion_from(list, 0)
}

impl TransitionPropertyIterator {
    /// The iterator's indices are inside its list, and an in-progress
    /// shorthand expansion always follows a consumed entry.
    pub closed spec fn wf(self) -> bool {
        &&& self.cur <= self.list@.len()
        &&& match self.longhand_iterator {
            Some(exp) => exp.pos <= exp.items@.len() && self.cur >= 1,
            None => true,
        }
    }

    /// The iterations this iterator has yet to yield.
    pub closed spec fn remaining(self) -> Seq<TransitionPropertyIteration> {
        let rest = expansion_from(self.list@, self.cur as int);
        match self.longhand_iterator {
            Some(exp) => exp.items@.skip(exp.pos as int).map_values(
                |lh: LonghandId| TransitionPropertyIteration {
                    property: OwnedPropertyDeclarationId::Longhand(lh),
                    index: (self.cur - 1) as usize,
                },
            ) + rest,
            None => rest,
        }
    }

    /// Creates an iterator over the given style's transition-property list:
    /// it will yield exactly that list's expansion, in order.
    pub fn from_style(style: &ComputedValues) -> (r: TransitionPropertyIterator)
        ensures
            r.wf(),
            r.remaining() == transition_expansion(style.transition_properties@),
    {
        let mut list: Vec<TransitionProperty> = Vec::new();
        let n: usize = style.transition_properties.len();
        let mut i: usize = 0;
        while i < n
            invariant
                0 <= i <= n,
                n == style.transition_properties@.len(),
                list@ == style.transition_properties@.take(i as int),
            decreases n - i,
        {
            list.push(style.transition_properties[i]);
            proof {
                assert(list@ =~= style.transition_properties@.take(i + 1));
            }
            i = i + 1;
        }
        proof {
            assert(list@ =~= style.transition_properties@);
        }
        TransitionPropertyIterator { list, cur: 0, longhand_iterator: None }
    }

    /// Yields the next transitioning property, with the list index of the
    /// entry it came from; `None` once the list and any in-progress
    /// shorthand expansion are both exhausted.
    pub fn next(&mut self) -> (r: Option<TransitionPropertyIteration>)
        requires
            old(self).wf(),
        ensures
            final(self).wf(),
            match r {
                Some(item) => old(self).remaining().len() > 0 && item == old(self).remaining()[0]
                    && final(self).remaining() == old(self).remaining().skip(1),
                None => old(self).remaining().len() == 0 && final(self).remaining() == old(
                    self,
                ).remaining(),
            },
    {
        let ghost snapshot = old(self).remaining();
        loop
            invariant
                self.wf(),
                self.remaining() == snapshot,
                snapshot == old(self).remaining(),
            decreases 2 * self.list.len() - 2 * self.cur + (
            if self.longhand_iterator is Some {
                1int
            } else {
                0int
            }),
        {
            let ghost pre = *self;
            let mut clear: bool = false;
            match &mut self.longhand_iterator {
                Some(exp) => {
                    if exp.pos < exp.items.len() {
                        let id = exp.items[exp.pos];
                        exp.pos = exp.pos + 1;
                        let item = TransitionPropertyIteration {
                            property: OwnedPropertyDeclarationId::Longhand(id),
                            index: self.cur - 1,
                        };
                        proof {
                            let ghost exp0 = pre.longhand_iterator->Some_0;
                            let ghost f = |lh: LonghandId| TransitionPropertyIteration {
                                property: OwnedPropertyDeclarationId::Longhand(lh),
                                index: (pre.cur - 1) as usize,
                            };
                            let ghost x = exp0.items@.skip(exp0.pos as int).map_values(f);
                            assert(x[0] == f(exp0.items@.skip(exp0.pos as int)[0]));
                            assert(exp0.items@.skip(exp0.pos as int)[0] == exp0.items@[
                                exp0.pos as int
                            ]);
                            assert(snapshot[0] == item);
                            assert(exp0.items@.skip(exp0.pos + 1) =~= exp0.items@.skip(
                                exp0.pos as int,
                            ).skip(1));
                            assert(self.remaining() =~= snapshot.skip(1));
                        }
                        return Some(item);
                    }
                    clear = true;
                },
                None => {},
            }
            if clear {
                self.longhand_iterator = None;
                proof {
                    let ghost exp0 = pre.longhand_iterator->Some_0;
                    assert(exp0.items@.skip(exp0.pos as int).len() == 0);
                    assert(self.remaining() =~= snapshot);
                }
            } else {
                if self.cur >= self.list.len() {
                    proof {
                        assert(snapshot.len() == 0);
                    }
                    return None;
                }
                let entry = self.list[self.cur];
                let index = self.cur;
                self.cur = self.cur + 1;
                proof {
                    assert(snapshot == entry_expansion(entry, index) + expansion_from(
                        self.list@,
                        index + 1,
                    ));
                }
                match entry {
                    TransitionProperty::NonCustom(nc) => match nc.longhand_or_shorthand() {
                        Ok(longhand_id) => {
                            let item = TransitionPropertyIteration {
                                property: OwnedPropertyDeclarationId::Longhand(longhand_id),
                                index,
                            };
                            proof {
                                assert(snapshot[0] == item);
                                assert(self.remaining() =~= snapshot.skip(1));
                            }
                            return Some(item);
                        },
                        Err(shorthand_id) => {
                            // Set up the state to expand the shorthand and
                            // compute the next value on the following pass.
                            self.longhand_iterator = Some(
                                LonghandExpansion { items: shorthand_id.longhands(), pos: 0 },
                            );
                            proof {
                                let ghost f = |lh: LonghandId| TransitionPropertyIteration {
                                    property: OwnedPropertyDeclarationId::Longhand(lh),
                                    index,
                                };
                                assert(shorthand_longhand_order(shorthand_id).skip(0)
                                    =~= shorthand_longhand_order(shorthand_id));
                                assert(self.remaining() =~= snapshot);
                            }
                        },
                    },
                    TransitionProperty::Custom(name) => {
                        let item = TransitionPropertyIteration {
                            property: OwnedPropertyDeclarationId::Custom(name),
                            index,
                        };
                        proof {
                            assert(snapshot[0] == item);
                            assert(self.remaining() =~= snapshot.skip(1));
                        }
                        return Some(item);
                    },
                    TransitionProperty::Unsupported(_) => {
                        proof {
                            assert(entry_expansion(entry, index).len() == 0);
                            assert(self.remaining() =~= snapshot);
                        }
                    },
                }
            }
        }
    }
}

} // verus!
