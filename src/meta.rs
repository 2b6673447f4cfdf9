//! Metadata of a rule, projected out of the engine's metadata array.
//!
//! The array is terminated by an entry whose type code is not one of a
//! value; such an entry ends the walk and is never surfaced.
use vstd::prelude::*;

use crate::rules::{Metadata, MetadataValue, MetadataValueModel};
use crate::yara_sys::{meta_type_of_code, MetaType, META_TYPE_BOOLEAN, META_TYPE_INTEGER};

verus! {

/// One entry of the engine's metadata array, as read from native memory.
#[derive(Debug)]
pub struct RawMeta {
    /// Discriminant of the entry.
    pub type_: i32,
    pub identifier: String,
    /// Payload of an integer or boolean entry.
    pub integer: i64,
    /// Payload of a text entry.
    pub string: String,
}

/// Whether a type code names a value (and not the terminator).
pub open spec fn is_value_code(code: i32) -> bool {
    meta_type_of_code(code) matches Some(t) && t != MetaType::Null
}

/// The metadata an entry stands for, decoded by its discriminant.
pub open spec fn metadata_model(m: RawMeta) -> (Seq<char>, MetadataValueModel) {
    let value = if m.type_ == META_TYPE_BOOLEAN as i32 {
        MetadataValueModel::Boolean(m.integer != 0)
    } else if m.type_ == META_TYPE_INTEGER as i32 {
        MetadataValueModel::Integer(m.integer)
    } else {
        MetadataValueModel::Text(m.string@)
    };
    (m.identifier@, value)
}

/// The entries before the terminator.
pub open spec fn meta_entries(s: Seq<RawMeta>) -> Seq<RawMeta>
    decreases s.len(),
{
    if s.len() == 0 || !is_value_code(s[0].type_) {
        seq![]
    } else {
        seq![s[0]] + meta_entries(s.drop_first())
    }
}

impl Metadata {
    pub fn from(meta: RawMeta) -> (r: Metadata)
        requires
            is_value_code(meta.type_),
        ensures
            r@ == metadata_model(meta),
    {
        let value = if meta.type_ == META_TYPE_BOOLEAN as i32 {
            MetadataValue::Boolean(meta.integer != 0)
        } else if meta.type_ == META_TYPE_INTEGER as i32 {
            MetadataValue::Integer(meta.integer)
        } else {
            MetadataValue::String(meta.string)
        };
        Metadata { identifier: meta.identifier, value }
    }
}

/// Lazy, non-restartable walk over a metadata array.
pub struct MetadataIterator {
    metas: Vec<RawMeta>,
}

impl MetadataIterator {
    /// The metadata not yet visited, in array order.
    pub closed spec fn remaining(&self) -> Seq<(Seq<char>, MetadataValueModel)> {
        meta_entries(self.metas@).map_values(|m: RawMeta| metadata_model(m))
    }

    pub fn from(metas: Vec<RawMeta>) -> (r: MetadataIterator)
        ensures
            r.remaining() == meta_entries(metas@).map_values(|m: RawMeta| metadata_model(m)),
    {
        MetadataIterator { metas }
    }

    pub fn next(&mut self) -> (r: Option<Metadata>)
        ensures
            old(self).remaining().len() == 0 ==> r is None && final(self).remaining().len()
                == 0,
            old(self).remaining().len() > 0 ==> (r matches Some(m) && m@ == old(
                self,
            ).remaining()[0]) && final(self).remaining() == old(self).remaining().drop_first(),
    {
        if self.metas.len() == 0 {
            return None;
        }
        let code = self.metas[0].type_;
        let t = MetaType::from_code(code);
        let is_value = match t {
            Ok(MetaType::Null) => false,
            Ok(_) => true,
            Err(_) => false,
        };
        if !is_value {
            self.metas = Vec::new();
            proof {
                assert(meta_entries(self.metas@) =~= seq![]);
            }
            return None;
        }
        let m = self.metas.remove(0);
        proof {
            let o = old(self).metas@;
            assert(o.drop_first() =~= self.metas@);
            assert(meta_entries(o) =~= seq![o[0]] + meta_entries(o.drop_first()));
            assert(self.remaining() =~= old(self).remaining().drop_first());
        }
        Some(Metadata::from(m))
    }

    /// Projects every remaining entry, in array order.
    pub fn collect(self) -> (r: Vec<Metadata>)
        ensures
            r@.map_values(|m: Metadata| m@) == self.remaining(),
    {
        let mut it = self;
        let mut out: Vec<Metadata> = Vec::new();
        let ghost all = it.remaining();
        loop
            invariant
                out@.map_values(|m: Metadata| m@) + it.remaining() == all,
                all == self.remaining(),
            decreases it.remaining().len(),
        {
            let ghost before = it.remaining();
            let ghost prev = out@;
            match it.next() {
                Some(m) => {
                    out.push(m);
                    proof {
                        assert(out@.map_values(|m: Metadata| m@) =~= prev.map_values(
                            |m: Metadata| m@,
                        ) + seq![before[0]]);
                        assert(before =~= seq![before[0]] + it.remaining());
                    }
                },
                None => {
                    proof {
                        assert(out@.map_values(|m: Metadata| m@) =~= all);
                    }
                    return out;
                },
            }
        }
    }
}

} // verus!
