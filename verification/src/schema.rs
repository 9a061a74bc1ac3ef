//! The version of the store's layout, and what to do with a store of
//! another version.

use vstd::prelude::*;

verus! {

/// The layout that this registry writes.
pub const DB_VERSION: u32 = 2;

/// What to do with a store when it is opened.
#[derive(Debug, Clone, Copy, PartialEq, Eq, Structural)]
pub enum SchemaAction {
    /// The store is new: mark it with the layout of this registry.
    Initialize,
    /// The store is of an older layout: mark it with the layout of this
    /// registry, and say so.
    Upgrade { from: u32 },
    /// The store is of this layout.
    Proceed,
    /// The store was written by a newer registry: leave it alone.
    Refuse { found: u32 },
}

/// What to do with a store that is marked with the given layout, or with
/// none.
pub open spec fn spec_schema_action(stored: Option<u32>) -> SchemaAction {
    match stored {
        None => SchemaAction::Initialize,
        Some(found) => if found > DB_VERSION {
            SchemaAction::Refuse { found }
        } else if found < DB_VERSION {
            SchemaAction::Upgrade { from: found }
        } else {
            SchemaAction::Proceed
        },
    }
}

#[verifier::when_used_as_spec(spec_schema_action)]
pub fn schema_action(stored: Option<u32>) -> (action: SchemaAction)
    ensures
        action == spec_schema_action(stored),
{
    match stored {
        None => SchemaAction::Initialize,
        Some(found) => if found > DB_VERSION {
            SchemaAction::Refuse { found }
        } else if found < DB_VERSION {
            SchemaAction::Upgrade { from: found }
        } else {
            SchemaAction::Proceed
        },
    }
}

} // verus!
