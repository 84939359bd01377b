//! Which encoding convention a union uses.

use vstd::prelude::*;
use vstd::string::*;
use crate::model::{Style, TagConfig, Variant};

verus! {

/// The encoding convention that distinguishes the arms of a union.
pub enum TagStrategy {
    Internal { tag: String },
    Adjacent { tag: String, content: String },
    External,
    Untagged,
}

/// The strategy that a tagging configuration names, or `None` where it names none.
pub open spec fn strategy_of(cfg: TagConfig) -> Option<TagStrategy> {
    match (cfg.tag, cfg.content) {
        (Some(tag), Some(content)) => if tag@.len() > 0 && content@.len() > 0 {
            Some(TagStrategy::Adjacent { tag, content })
        } else {
            None
        },
        (Some(tag), None) => if tag@.len() > 0 {
            Some(TagStrategy::Internal { tag })
        } else {
            None
        },
        (None, None) => if cfg.untagged {
            Some(TagStrategy::Untagged)
        } else {
            Some(TagStrategy::External)
        },
        (None, Some(_)) => None,
    }
}

/// Whether every variant of `vs` is unit-style.
pub open spec fn all_unit(vs: Seq<Variant>) -> bool {
    forall|i: int| 0 <= i < vs.len() ==> #[trigger] vs[i].style == Style::Unit
}

/// Whether a union with strategy `s` and kept variants `vs` renders as a plain enumeration.
pub open spec fn is_plain_enum(s: TagStrategy, vs: Seq<Variant>) -> bool {
    (s is External || s is Untagged) && all_unit(vs)
}

impl TagStrategy {
    /// The strategy that `cfg` names: adjacent with a tag and a content key, internal with a
    /// tag alone, external or untagged with neither; `None` for any other combination.
    pub fn resolve(cfg: &TagConfig) -> (r: Option<TagStrategy>)
        ensures
            r == strategy_of(*cfg),
    {
        match (&cfg.tag, &cfg.content) {
            (Some(tag), Some(content)) => {
                if tag.unicode_len() > 0 && content.unicode_len() > 0 {
                    Some(TagStrategy::Adjacent { tag: tag.clone(), content: content.clone() })
                } else {
                    None
                }
            },
            (Some(tag), None) => {
                if tag.unicode_len() > 0 {
                    Some(TagStrategy::Internal { tag: tag.clone() })
                } else {
                    None
                }
            },
            (None, None) => {
                if cfg.untagged {
                    Some(TagStrategy::Untagged)
                } else {
                    Some(TagStrategy::External)
                }
            },
            (None, Some(_)) => None,
        }
    }

    /// Whether a union with this strategy and the kept variants `vs` is a plain enumeration.
    pub fn is_plain_enum(&self, vs: &Vec<&Variant>) -> (r: bool)
        ensures
            r == is_plain_enum(*self, vs@.map_values(|v: &Variant| *v)),
    {
        let ghost all = vs@.map_values(|v: &Variant| *v);
        match self {
            TagStrategy::Internal { .. } | TagStrategy::Adjacent { .. } => return false,
            _ => {},
        }
        let mut i: usize = 0;
        while i < vs.len()
            invariant
                i <= vs@.len(),
                all == vs@.map_values(|v: &Variant| *v),
                forall|j: int| 0 <= j < i ==> #[trigger] all[j].style == Style::Unit,
            decreases vs@.len() - i,
        {
            if vs[i].style != Style::Unit {
                assert(all[i as int].style != Style::Unit);
                return false;
            }
            i = i + 1;
        }
        true
    }
}

} // verus!
