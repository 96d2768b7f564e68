//! The fixed catalogue of roles.

use vstd::prelude::*;
use vstd::string::*;

use crate::listing::{trim_str, trimmed, uppercase_str, uppercased};

verus! {

/// A role: its code and its display name.
pub struct Role {
    pub code: String,
    pub name: String,
}

/// The display name of a role code, where the code is in the catalogue.
pub open spec fn role_name_of(code: Seq<char>) -> Option<Seq<char>> {
    if code == "ADMIN"@ {
        Some("Administrator"@)
    } else if code == "SHOPKEEPER"@ {
        Some("Shopkeeper"@)
    } else if code == "CUSTOMER"@ {
        Some("Customer"@)
    } else {
        None
    }
}

fn role(code: &str, name: &str) -> (r: Role)
    ensures
        r.code@ == code@,
        r.name@ == name@,
{
    Role { code: String::from_str(code), name: String::from_str(name) }
}

/// The whole catalogue, in its fixed order.
pub fn all_roles() -> (r: Vec<Role>)
    ensures
        r@.len() == 3,
        r@[0].code@ == "ADMIN"@ && r@[0].name@ == "Administrator"@,
        r@[1].code@ == "SHOPKEEPER"@ && r@[1].name@ == "Shopkeeper"@,
        r@[2].code@ == "CUSTOMER"@ && r@[2].name@ == "Customer"@,
{
    let mut v = Vec::new();
    v.push(role("ADMIN", "Administrator"));
    v.push(role("SHOPKEEPER", "Shopkeeper"));
    v.push(role("CUSTOMER", "Customer"));
    v
}

/// Looks a role up by its code, trimmed and upper-cased first.
pub fn role_by_code(code: &str) -> (r: Option<Role>)
    ensures
        match role_name_of(uppercased(trimmed(code@))) {
            Some(n) => r matches Some(x) && x.code@ == uppercased(trimmed(code@)) && x.name@ == n,
            None => r is None,
        },
{
    let c = uppercase_str(trim_str(code));
    if c == String::from_str("ADMIN") {
        Some(role("ADMIN", "Administrator"))
    } else if c == String::from_str("SHOPKEEPER") {
        Some(role("SHOPKEEPER", "Shopkeeper"))
    } else if c == String::from_str("CUSTOMER") {
        Some(role("CUSTOMER", "Customer"))
    } else {
        None
    }
}

} // verus!
