//! Supplement resolution: the label content prefixed before a number.

use vstd::prelude::*;
use vstd::string::*;

use crate::content::{Content, ItemModel};

verus! {

/// How an element's supplement is configured: derived automatically
/// from the element kind's localized name, suppressed entirely, or
/// given explicitly as content.
pub enum SupplementConfig {
    Automatic,
    Suppressed,
    Explicit(Content),
}

/// The mathematical shape of a [`SupplementConfig`].
pub enum SupplementConfigModel {
    Automatic,
    Suppressed,
    Explicit(Seq<ItemModel>),
}

impl View for SupplementConfig {
    type V = SupplementConfigModel;

    open spec fn view(&self) -> SupplementConfigModel {
        match self {
            SupplementConfig::Automatic => SupplementConfigModel::Automatic,
            SupplementConfig::Suppressed => SupplementConfigModel::Suppressed,
            SupplementConfig::Explicit(c) => SupplementConfigModel::Explicit(c@),
        }
    }
}

impl Clone for SupplementConfig {
    fn clone(&self) -> (r: SupplementConfig)
        ensures
            r@ == self@,
    {
        match self {
            SupplementConfig::Automatic => SupplementConfig::Automatic,
            SupplementConfig::Suppressed => SupplementConfig::Suppressed,
            SupplementConfig::Explicit(c) => SupplementConfig::Explicit(c.clone()),
        }
    }
}

/// What a supplement configuration resolves to, given the localized
/// name `Automatic` draws on: explicit content unchanged, the name as
/// text, or nothing at all. Total — automatic and suppressed
/// supplements never fail, and an explicit one is already evaluated
/// content by the time it reaches this subsystem.
pub open spec fn spec_resolve_supplement(cfg: SupplementConfigModel, name: Seq<char>) -> Option<
    Seq<ItemModel>,
> {
    match cfg {
        SupplementConfigModel::Automatic => Some(seq![ItemModel::Text(name)]),
        SupplementConfigModel::Suppressed => None,
        SupplementConfigModel::Explicit(c) => Some(c),
    }
}

/// Resolves a supplement configuration against the localized name of
/// the owning element kind.
pub fn resolve_supplement(cfg: &SupplementConfig, name: &str) -> (r: Option<Content>)
    ensures
        crate::content::spec_opt_items(r) == spec_resolve_supplement(cfg@, name@),
{
    match cfg {
        SupplementConfig::Automatic => Some(Content::text(String::from_str(name))),
        SupplementConfig::Suppressed => None,
        SupplementConfig::Explicit(c) => Some(c.clone()),
    }
}

} // verus!
