//! Surrealdb utilities for managing query responses and error handling.

use crate::result::Error;
use vstd::prelude::*;

verus! {

/// Given what a statement of a query response held, returns the content of that statement turned
/// into an instance of U. A statement that could not be read is `Unknown`,
/// one that held nothing is `NotFound`.
pub fn export_item<T, U: From<T>, E>(taken: Result<Option<T>, E>) -> (item: Result<U, Error>)
    ensures
        match taken {
            Ok(Some(row)) => item matches Ok(exported) && call_ensures(U::from, (row,), exported),
            Ok(None) => item == Err::<U, Error>(Error::NotFound),
            Err(_) => item == Err::<U, Error>(Error::Unknown),
        },
{
    match taken {
        Ok(Some(row)) => Ok(U::from(row)),
        Ok(None) => Err(Error::NotFound),
        Err(_) => Err(Error::Unknown),
    }
}

/// Given the rows a statement of a query response held, returns them turned
/// into instances of U, in their order. A statement that could not be read
/// is `Unknown`; one without rows is an empty list.
pub fn export_items<T, U: From<T>, E>(taken: Result<Vec<T>, E>) -> (items: Result<Vec<U>, Error>)
    ensures
        match taken {
            Ok(rows) => items matches Ok(exported) && exported@.len() == rows@.len() && forall|
                i: int,
            |
                0 <= i < rows@.len() ==> call_ensures(U::from, (rows@[i],), #[trigger] exported@[i]),
            Err(_) => items == Err::<Vec<U>, Error>(Error::Unknown),
        },
{
    let mut rows = match taken {
        Ok(rows) => rows,
        Err(_) => {
            return Err(Error::Unknown);
        },
    };
    let ghost all = rows@;
    let mut exported: Vec<U> = Vec::new();
    while rows.len() > 0
        invariant
            exported@.len() <= all.len(),
            rows@ == all.skip(exported@.len() as int),
            forall|i: int|
                0 <= i < exported@.len() ==> call_ensures(U::from, (all[i],), #[trigger] exported@[i]),
        decreases rows@.len(),
    {
        let row = rows.remove(0);
        exported.push(U::from(row));
    }
    Ok(exported)
}

} // verus!
