//! `GET /v2/catalog`.

use vstd::prelude::*;

use crate::models::catalog::Catalog;
use crate::AppState;

verus! {

/// The catalog the broker advertises.
pub fn get_catalog(state: &AppState) -> (c: &Catalog)
    ensures
        *c == state.broker.catalog,
{
    state.broker.catalog()
}

} // verus!
