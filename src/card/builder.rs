//! Step-by-step construction of a FeliCa card value.

use vstd::prelude::*;

use crate::card::{Card, CardModel};
use crate::error::{Error, Result};
use crate::types::{Idm, Pmm, SystemCode};

verus! {

/// Collects the IDm, PMm and system code of a FeliCa card.
pub struct CardBuilder {
    pub idm: Option<Idm>,
    pub pmm: Option<Pmm>,
    pub system_code: Option<SystemCode>,
}

impl CardBuilder {
    /// A builder with nothing set.
    pub fn new() -> (r: Self)
        ensures
            r.idm is None,
            r.pmm is None,
            r.system_code is None,
    {
        CardBuilder { idm: None, pmm: None, system_code: None }
    }

    /// Sets the IDm.
    pub fn idm(self, idm: Idm) -> (r: Self)
        ensures
            r.idm == Some(idm),
            r.pmm == self.pmm,
            r.system_code == self.system_code,
    {
        CardBuilder { idm: Some(idm), ..self }
    }

    /// Sets the PMm.
    pub fn pmm(self, pmm: Pmm) -> (r: Self)
        ensures
            r.pmm == Some(pmm),
            r.idm == self.idm,
            r.system_code == self.system_code,
    {
        CardBuilder { pmm: Some(pmm), ..self }
    }

    /// Sets the system code.
    pub fn system_code(self, sc: SystemCode) -> (r: Self)
        ensures
            r.system_code == Some(sc),
            r.idm == self.idm,
            r.pmm == self.pmm,
    {
        CardBuilder { system_code: Some(sc), ..self }
    }

    /// The card, once all three values are set; a missing value is a
    /// length error (IDm and PMm: 8 expected, system code: 2 expected).
    pub fn build(self) -> (r: Result<Card>)
        ensures
            match (self.idm, self.pmm, self.system_code) {
                (Some(i), Some(p), Some(s)) => r matches Ok(c) && c@ == (CardModel::TypeF {
                    idm: i@,
                    pmm: p@,
                    system_code: s.0,
                }),
                (None, _, _) => r == Err::<Card, Error>(
                    Error::InvalidLength { expected: 8, actual: 0 },
                ),
                (Some(_), None, _) => r == Err::<Card, Error>(
                    Error::InvalidLength { expected: 8, actual: 0 },
                ),
                (Some(_), Some(_), None) => r == Err::<Card, Error>(
                    Error::InvalidLength { expected: 2, actual: 0 },
                ),
            },
    {
        let idm = match self.idm {
            Some(v) => v,
            None => {
                return Err(Error::InvalidLength { expected: 8, actual: 0 });
            },
        };
        let pmm = match self.pmm {
            Some(v) => v,
            None => {
                return Err(Error::InvalidLength { expected: 8, actual: 0 });
            },
        };
        let system_code = match self.system_code {
            Some(v) => v,
            None => {
                return Err(Error::InvalidLength { expected: 2, actual: 0 });
            },
        };
        Ok(Card::new(idm, pmm, system_code))
    }
}

} // verus!
