//! The identity of a FeliCa card as a plain record.

use vstd::prelude::*;

use crate::card::{Card, CardModel};
use crate::types::{Idm, Pmm, SystemCode};

verus! {

/// IDm, PMm and system code of a FeliCa card.
#[derive(Debug, Clone, Copy, PartialEq, Eq)]
pub struct CardInfo {
    pub idm: Idm,
    pub pmm: Pmm,
    pub system_code: SystemCode,
}

impl CardInfo {
    /// Builds the record.
    pub fn new(idm: Idm, pmm: Pmm, system_code: SystemCode) -> (r: Self)
        ensures
            r.idm == idm,
            r.pmm == pmm,
            r.system_code == system_code,
    {
        CardInfo { idm, pmm, system_code }
    }

    /// The IDm.
    pub fn idm(&self) -> (r: &Idm)
        ensures
            *r == self.idm,
    {
        &self.idm
    }

    /// The PMm.
    pub fn pmm(&self) -> (r: &Pmm)
        ensures
            *r == self.pmm,
    {
        &self.pmm
    }

    /// The system code.
    pub fn system_code(&self) -> (r: SystemCode)
        ensures
            r == self.system_code,
    {
        self.system_code
    }

    /// The record of a FeliCa card; a Type-A or Type-B target has none.
    pub fn from_card(card: &Card) -> (r: Option<CardInfo>)
        ensures
            match card@ {
                CardModel::TypeF { idm, pmm, system_code } => r matches Some(i) && i.idm@ == idm
                    && i.pmm@ == pmm && i.system_code.0 == system_code,
                _ => r is None,
            },
    {
        match card {
            Card::TypeF { idm, pmm, system_code } => Some(CardInfo::new(*idm, *pmm, *system_code)),
            _ => None,
        }
    }
}

} // verus!
