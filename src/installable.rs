use vstd::prelude::*;

use crate::text::{extend_strings, starts_with};

verus! {

/// Where the immutable package store lives; a reference under it names an
/// artifact that is already in the store.
pub const STORE_PREFIX: &'static str = "/nix/store";

/// A package reference, as far as building it goes: the arguments it stands
/// for on the build tool's command line, and, for a flake, its locator.
#[derive(Debug)]
pub enum Installable {
    /// A flake reference: its locator and the arguments it translates to.
    Flake { reference: String, args: Vec<String> },
    /// Any other kind of reference, by the arguments it translates to.
    Other { args: Vec<String> },
}

impl Installable {
    /// The arguments the reference stands for.
    pub open spec fn args_view(&self) -> Seq<Seq<char>> {
        match self {
            Installable::Flake { args, .. } => args.deep_view(),
            Installable::Other { args } => args.deep_view(),
        }
    }

    /// A flake reference whose locator lies under the package store.
    pub open spec fn store_backed(&self) -> bool {
        match self {
            Installable::Flake { reference, .. } => STORE_PREFIX@.is_prefix_of(reference@),
            Installable::Other { .. } => false,
        }
    }

    /// The arguments the reference stands for on the build tool's command line.
    pub fn to_args(&self) -> (r: Vec<String>)
        ensures
            r.deep_view() == self.args_view(),
    {
        let args = match self {
            Installable::Flake { args, .. } => args,
            Installable::Other { args } => args,
        };
        let mut r: Vec<String> = Vec::new();
        extend_strings(&mut r, args.as_slice());
        assert(r.deep_view() =~= self.args_view());
        r
    }

    /// Whether this is a flake reference whose locator lies under the store,
    /// so that building it writes where only a privileged process may.
    pub fn is_store_backed(&self) -> (r: bool)
        ensures
            r == self.store_backed(),
    {
        match self {
            Installable::Flake { reference, .. } => starts_with(reference.as_str(), STORE_PREFIX),
            Installable::Other { .. } => false,
        }
    }
}

} // verus!
