//! The configuration of the name token: who administers it, and whether its
//! tokens can change hands.
//!
//! The functions take a configuration and give back the changed one. Reading
//! it from the store, validating addresses and writing it back are the
//! caller's part.

use crate::error::ContractError;
use vstd::prelude::*;
use vstd::string::*;

verus! {

/// The configuration of the name token.
#[derive(Debug, Clone)]
pub struct Config {
    /// The addresses that may change the configuration, in the order in
    /// which they were added.
    pub admins: Vec<String>,
    /// Whether tokens can be transferred.
    pub transferrable: bool,
}

/// The addresses in `admins`, as texts.
pub open spec fn names_of(admins: Seq<String>) -> Seq<Seq<char>> {
    admins.map_values(|admin: String| admin@)
}

/// `names` without every occurrence of `name`, the rest in their order.
pub open spec fn without(names: Seq<Seq<char>>, name: Seq<char>) -> Seq<Seq<char>> {
    names.filter(|other: Seq<char>| other != name)
}

impl Config {
    /// The administrators, as texts.
    pub open spec fn admin_names(&self) -> Seq<Seq<char>> {
        names_of(self.admins@)
    }
}

/// Whether `address` is an administrator.
pub fn is_admin(config: &Config, address: &str) -> (found: bool)
    ensures
        found == config.admin_names().contains(address@),
{
    let target = String::from_str(address);
    let mut i: usize = 0;
    while i < config.admins.len()
        invariant
            i <= config.admins@.len(),
            target@ == address@,
            forall|j: int| 0 <= j < i ==> config.admin_names()[j] != address@,
        decreases config.admins@.len() - i,
    {
        if config.admins[i] == target {
            assert(config.admin_names()[i as int] == address@);
            return true;
        }
        i += 1;
    }
    false
}

/// Adds `admin` behind the administrators. One who is an administrator
/// already is refused.
pub fn add_admin(admin: &str, config: Config) -> (result: Result<Config, ContractError>)
    ensures
        match result {
            Ok(updated) => {
                &&& !config.admin_names().contains(admin@)
                &&& updated.admin_names() == config.admin_names().push(admin@)
                &&& updated.transferrable == config.transferrable
            },
            Err(error) => {
                &&& config.admin_names().contains(admin@)
                &&& error == ContractError::Unauthorized {  }
            },
        },
{
    if is_admin(&config, admin) {
        return Err(ContractError::Unauthorized {  });
    }
    let mut admins = config.admins;
    admins.push(String::from_str(admin));
    assert(names_of(admins@) =~= config.admin_names().push(admin@));
    Ok(Config { admins, transferrable: config.transferrable })
}

/// Removes `admin` from the administrators, wherever it stands among them.
/// One who is no administrator is refused.
pub fn remove_admin(admin: &str, config: Config) -> (result: Result<Config, ContractError>)
    ensures
        match result {
            Ok(updated) => {
                &&& config.admin_names().contains(admin@)
                &&& updated.admin_names() == without(config.admin_names(), admin@)
                &&& updated.transferrable == config.transferrable
            },
            Err(error) => {
                &&& !config.admin_names().contains(admin@)
                &&& error == ContractError::Unauthorized {  }
            },
        },
{
    if !is_admin(&config, admin) {
        return Err(ContractError::Unauthorized {  });
    }
    let target = String::from_str(admin);
    let ghost names = config.admin_names();
    let ghost differs = |other: Seq<char>| other != admin@;
    let mut admins: Vec<String> = Vec::new();
    let mut i: usize = 0;
    assert(names.take(0).filter(differs) =~= Seq::<Seq<char>>::empty()) by {
        reveal(Seq::filter);
    }
    while i < config.admins.len()
        invariant
            i <= config.admins@.len(),
            target@ == admin@,
            names == config.admin_names(),
            differs == |other: Seq<char>| other != admin@,
            names_of(admins@) == names.take(i as int).filter(differs),
        decreases config.admins@.len() - i,
    {
        proof {
            assert(names.take(i + 1) =~= names.take(i as int).push(names[i as int]));
            names.take(i as int).lemma_filter_push(names[i as int], differs);
        }
        if config.admins[i] != target {
            let ghost kept = admins@;
            admins.push(config.admins[i].clone());
            assert(names_of(admins@) =~= names_of(kept).push(names[i as int]));
        }
        i += 1;
    }
    assert(names.take(i as int) =~= names);
    Ok(Config { admins, transferrable: config.transferrable })
}

/// Sets whether tokens can be transferred. The administrators stay.
pub fn set_transferrable(transferrable: bool, config: Config) -> (updated: Config)
    ensures
        updated.admin_names() == config.admin_names(),
        updated.transferrable == transferrable,
{
    Config { admins: config.admins, transferrable }
}

} // verus!
