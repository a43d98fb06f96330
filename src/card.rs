//! Cards found by a reader, and the operations on FeliCa cards.

pub mod builder;
pub mod info;
pub mod operations;


pub use builder::CardBuilder;
pub use info::CardInfo;
pub use operations::ServiceIterator;


use vstd::prelude::*;

use crate::types::{Atqb, CardType, Idm, Pmm, SystemCode, Uid};

verus! {

/// A card as plain values.
pub enum CardModel {
    TypeF { idm: Seq<u8>, pmm: Seq<u8>, system_code: u16 },
    TypeA { uid: Seq<u8> },
    TypeB { uid: Seq<u8>, atqb: Seq<u8> },
}

/// A contactless target: a FeliCa (Type-F) card, or an ISO 14443 Type-A or
/// Type-B target.
#[derive(Debug, Clone)]
pub enum Card {
    TypeF { idm: Idm, pmm: Pmm, system_code: SystemCode },
    TypeA { uid: Uid },
    TypeB { uid: Uid, atqb: Atqb },
}

impl View for Card {
    type V = CardModel;

    open spec fn view(&self) -> CardModel {
        match self {
            Card::TypeF { idm, pmm, system_code } => CardModel::TypeF {
                idm: idm@,
                pmm: pmm@,
                system_code: system_code.0,
            },
            Card::TypeA { uid } => CardModel::TypeA { uid: uid@ },
            Card::TypeB { uid, atqb } => CardModel::TypeB { uid: uid@, atqb: atqb@ },
        }
    }
}

/// The kind of a card.
pub open spec fn card_type_of(c: CardModel) -> CardType {
    match c {
        CardModel::TypeF { .. } => CardType::TypeF,
        CardModel::TypeA { .. } => CardType::TypeA,
        CardModel::TypeB { .. } => CardType::TypeB,
    }
}

impl Card {
    /// A FeliCa card.
    pub fn new(idm: Idm, pmm: Pmm, system_code: SystemCode) -> (r: Self)
        ensures
            r@ == (CardModel::TypeF { idm: idm@, pmm: pmm@, system_code: system_code.0 }),
    {
        Card::TypeF { idm, pmm, system_code }
    }

    /// A FeliCa card.
    pub fn new_type_f(idm: Idm, pmm: Pmm, system_code: SystemCode) -> (r: Self)
        ensures
            r@ == (CardModel::TypeF { idm: idm@, pmm: pmm@, system_code: system_code.0 }),
    {
        Card::TypeF { idm, pmm, system_code }
    }

    /// A Type-A target.
    pub fn new_type_a(uid: Uid) -> (r: Self)
        ensures
            r@ == (CardModel::TypeA { uid: uid@ }),
    {
        Card::TypeA { uid }
    }

    /// A Type-B target.
    pub fn new_type_b(uid: Uid, atqb: Atqb) -> (r: Self)
        ensures
            r@ == (CardModel::TypeB { uid: uid@, atqb: atqb@ }),
    {
        Card::TypeB { uid, atqb }
    }

    /// The kind of the card.
    pub fn card_type(&self) -> (r: CardType)
        ensures
            r == card_type_of(self@),
    {
        match self {
            Card::TypeF { .. } => CardType::TypeF,
            Card::TypeA { .. } => CardType::TypeA,
            Card::TypeB { .. } => CardType::TypeB,
        }
    }

    /// The IDm of a FeliCa card.
    pub fn idm(&self) -> (r: Option<&Idm>)
        ensures
            match self@ {
                CardModel::TypeF { idm, .. } => r matches Some(v) && v@ == idm,
                _ => r is None,
            },
    {
        match self {
            Card::TypeF { idm, .. } => Some(idm),
            _ => None,
        }
    }

    /// The PMm of a FeliCa card.
    pub fn pmm(&self) -> (r: Option<&Pmm>)
        ensures
            match self@ {
                CardModel::TypeF { pmm, .. } => r matches Some(v) && v@ == pmm,
                _ => r is None,
            },
    {
        match self {
            Card::TypeF { pmm, .. } => Some(pmm),
            _ => None,
        }
    }

    /// The system code of a FeliCa card.
    pub fn system_code(&self) -> (r: Option<SystemCode>)
        ensures
            match self@ {
                CardModel::TypeF { system_code, .. } => r matches Some(v) && v.0 == system_code,
                _ => r is None,
            },
    {
        match self {
            Card::TypeF { system_code, .. } => Some(*system_code),
            _ => None,
        }
    }

    /// The UID of a Type-A or Type-B target.
    pub fn uid(&self) -> (r: Option<&Uid>)
        ensures
            match self@ {
                CardModel::TypeA { uid } => r matches Some(v) && v@ == uid,
                CardModel::TypeB { uid, .. } => r matches Some(v) && v@ == uid,
                _ => r is None,
            },
    {
        match self {
            Card::TypeA { uid } => Some(uid),
            Card::TypeB { uid, .. } => Some(uid),
            _ => None,
        }
    }

    /// The ATQB of a Type-B target.
    pub fn atqb(&self) -> (r: Option<&Atqb>)
        ensures
            match self@ {
                CardModel::TypeB { atqb, .. } => r matches Some(v) && v@ == atqb,
                _ => r is None,
            },
    {
        match self {
            Card::TypeB { atqb, .. } => Some(atqb),
            _ => None,
        }
    }
}

} // verus!
