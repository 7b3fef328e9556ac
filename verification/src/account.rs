use vstd::prelude::*;

verus! {

/// An account row as this core reads it from storage: the subject id as an
/// opaque string, the canonical e-mail, the stored password hash in PHC
/// form, and the two policy flags. The storage engine owns the row; this
/// library only decides from it.
#[derive(Debug, Clone)]
pub struct Account {
    pub id: String,
    pub email: String,
    pub password_hash: String,
    pub verified: bool,
    pub admin: bool,
}

} // verus!
