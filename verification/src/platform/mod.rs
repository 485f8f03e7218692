//! The platform profiles.
//!
//! Exactly one profile is in force for a run of the application. Each supplies
//! the identity under which the application registers with the operating
//! system, the templates of the chain database and cache directories, and the
//! places of two key stores of earlier layouts.

pub mod macos;
pub mod unix;
pub mod windows;

use vstd::prelude::*;

verus! {

/// The platform whose conventions are followed.
#[derive(Clone, Copy, Debug, PartialEq, Eq, Structural)]
pub enum Platform {
    /// macOS.
    MacOs,
    /// Windows.
    Windows,
    /// Any other system, taken to be Unix-like.
    Unix,
}

impl Platform {
    /// The vendor's name.
    pub open spec fn author_name(self) -> Seq<char> {
        match self {
            Platform::MacOs => macos::AUTHOR@,
            Platform::Windows => windows::AUTHOR@,
            Platform::Unix => unix::AUTHOR@,
        }
    }

    /// The application's product name.
    pub open spec fn product_name(self) -> Seq<char> {
        match self {
            Platform::MacOs => macos::PRODUCT@,
            Platform::Windows => windows::PRODUCT@,
            Platform::Unix => unix::PRODUCT@,
        }
    }

    /// The updater's product name.
    pub open spec fn hypervisor_product_name(self) -> Seq<char> {
        match self {
            Platform::MacOs => macos::PRODUCT_HYPERVISOR@,
            Platform::Windows => windows::PRODUCT_HYPERVISOR@,
            Platform::Unix => unix::PRODUCT_HYPERVISOR@,
        }
    }

    /// The template of the chain database directory.
    pub open spec fn chains_template(self) -> Seq<char> {
        match self {
            Platform::MacOs => macos::CHAINS_PATH@,
            Platform::Windows => windows::CHAINS_PATH@,
            Platform::Unix => unix::CHAINS_PATH@,
        }
    }

    /// The template of the cache directory.
    pub open spec fn cache_template(self) -> Seq<char> {
        match self {
            Platform::MacOs => macos::CACHE_PATH@,
            Platform::Windows => windows::CACHE_PATH@,
            Platform::Unix => unix::CACHE_PATH@,
        }
    }

    /// Where the application kept its keys before they were laid out by chain.
    pub open spec fn parity_root(self, home: Seq<char>) -> Seq<char> {
        match self {
            Platform::MacOs => macos::parity_root(home),
            Platform::Windows => windows::parity_root(home),
            Platform::Unix => unix::parity_root(home),
        }
    }

    /// Where Geth keeps its data.
    pub open spec fn geth_root(self, home: Seq<char>) -> Seq<char> {
        match self {
            Platform::MacOs => macos::geth_root(home),
            Platform::Windows => windows::geth_root(home),
            Platform::Unix => unix::geth_root(home),
        }
    }

    /// The vendor under which the application registers its directories.
    pub fn author(self) -> (name: &'static str)
        ensures
            name@ == self.author_name(),
    {
        match self {
            Platform::MacOs => macos::AUTHOR,
            Platform::Windows => windows::AUTHOR,
            Platform::Unix => unix::AUTHOR,
        }
    }

    /// The product under which the application registers its directories.
    pub fn product(self) -> (name: &'static str)
        ensures
            name@ == self.product_name(),
    {
        match self {
            Platform::MacOs => macos::PRODUCT,
            Platform::Windows => windows::PRODUCT,
            Platform::Unix => unix::PRODUCT,
        }
    }

    /// The product under which the updater registers its directories.
    pub fn product_hypervisor(self) -> (name: &'static str)
        ensures
            name@ == self.hypervisor_product_name(),
    {
        match self {
            Platform::MacOs => macos::PRODUCT_HYPERVISOR,
            Platform::Windows => windows::PRODUCT_HYPERVISOR,
            Platform::Unix => unix::PRODUCT_HYPERVISOR,
        }
    }

    /// The template of the chain database directory.
    pub fn chains_path(self) -> (template: &'static str)
        ensures
            template@ == self.chains_template(),
    {
        match self {
            Platform::MacOs => macos::CHAINS_PATH,
            Platform::Windows => windows::CHAINS_PATH,
            Platform::Unix => unix::CHAINS_PATH,
        }
    }

    /// The template of the cache directory.
    pub fn cache_path(self) -> (template: &'static str)
        ensures
            template@ == self.cache_template(),
    {
        match self {
            Platform::MacOs => macos::CACHE_PATH,
            Platform::Windows => windows::CACHE_PATH,
            Platform::Unix => unix::CACHE_PATH,
        }
    }

    /// The directory in which the application kept its keys before they were
    /// laid out by chain, for the user whose home directory is `home`.
    pub fn parity_base(self, home: &str) -> (base: String)
        ensures
            base@ == self.parity_root(home@),
    {
        match self {
            Platform::MacOs => macos::parity_base(home),
            Platform::Windows => windows::parity_base(home),
            Platform::Unix => unix::parity_base(home),
        }
    }

    /// Geth's data directory, for the user whose home directory is `home`.
    pub fn geth_base(self, home: &str) -> (base: String)
        ensures
            base@ == self.geth_root(home@),
    {
        match self {
            Platform::MacOs => macos::geth_base(home),
            Platform::Windows => windows::geth_base(home),
            Platform::Unix => unix::geth_base(home),
        }
    }
}

} // verus!
