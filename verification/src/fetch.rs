use vstd::prelude::*;

verus! {

/// The envelope a content query answers with: one payload value. The
/// retrieval itself (connection, request, decoding) is unverified
/// transport and lives outside this library.
pub struct Data<T>(T);

} // verus!
