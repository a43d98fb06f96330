//! Operations on FeliCa cards through an initialized handle. Each one sends
//! a command and hands the response to a projection that checks its kind
//! and IDm and takes out the caller's value.

use vstd::prelude::*;

use crate::card::{Card, CardModel};
use crate::device::handle::{Device, Initialized};
use crate::device::models::AnyModel;
use crate::error::{Error, Result};
use crate::device::handle::exchange_run;
use crate::protocol::commands::{
    command_bytes, read_bytes, request_response_bytes, request_service_bytes, request_system_code_bytes,
    search_service_code_bytes, write_bytes, Command,
};
use crate::transport::traits::{appended, extends, lemma_appended_none, Op};
use crate::protocol::responses::{response_code_of, status_ok, Response, ResponseModel};
use crate::transport::traits::Transport;
use crate::types::{
    bytes_equal, AccessMode, BlockData, BlockElement, DeviceType, Idm, ServiceCode, SystemCode,
};

verus! {

/// Response code of Read Without Encryption.
pub const READ_RSP: u8 = 0x07;
/// Response code of Write Without Encryption.
pub const WRITE_RSP: u8 = 0x09;
/// Response code of Request Service.
pub const REQUEST_SERVICE_RSP: u8 = 0x03;
/// Response code of Request Response.
pub const REQUEST_RESPONSE_RSP: u8 = 0x05;
/// Response code of Request System Code.
pub const REQUEST_SYSTEM_RSP: u8 = 0x0d;
/// Response code of Search Service Code.
pub const SEARCH_SERVICE_RSP: u8 = 0x0b;
/// Timeout of card operations, in milliseconds.
pub const OPERATION_TIMEOUT_MS: u64 = 1000;

/// The IDm of a FeliCa card (empty for other targets).
pub open spec fn felica_idm(c: CardModel) -> Seq<u8> {
    match c {
        CardModel::TypeF { idm, .. } => idm,
        _ => seq![],
    }
}

/// What a read projection returns for the response `m` and the card `idm`.
pub open spec fn read_projected(idm: Seq<u8>, m: ResponseModel, r: Result<Vec<BlockData>>) -> bool {
    match m {
        ResponseModel::ReadWithoutEncryption { idm: ri, blocks, .. } => if ri == idm {
            r matches Ok(v) && v@.map_values(|b: BlockData| b@) == blocks
        } else {
            r == Err::<Vec<BlockData>, Error>(
                Error::UnexpectedResponse { expected: READ_RSP, actual: READ_RSP },
            )
        },
        _ => r == Err::<Vec<BlockData>, Error>(Error::PollingFailed),
    }
}

/// What a write projection returns for the response `m` and the card `idm`.
pub open spec fn write_projected(idm: Seq<u8>, m: ResponseModel, r: Result<()>) -> bool {
    match m {
        ResponseModel::WriteWithoutEncryption { idm: ri, statuses } => if ri != idm {
            r == Err::<(), Error>(Error::UnexpectedResponse { expected: WRITE_RSP, actual: WRITE_RSP })
        } else if statuses.len() == 0 {
            r == Err::<(), Error>(Error::InvalidLength { expected: 11, actual: 0 })
        } else if !status_ok(statuses[0]) {
            r == Err::<(), Error>(
                Error::FelicaStatus { status1: statuses[0].0, status2: statuses[0].1 },
            )
        } else {
            r is Ok
        },
        _ => r == Err::<(), Error>(Error::PollingFailed),
    }
}

/// What a Request Service projection returns.
pub open spec fn versions_projected(idm: Seq<u8>, m: ResponseModel, r: Result<Vec<u16>>) -> bool {
    match m {
        ResponseModel::RequestService { idm: ri, versions } => if ri == idm {
            r matches Ok(v) && v@ == versions
        } else {
            r == Err::<Vec<u16>, Error>(
                Error::UnexpectedResponse {
                    expected: REQUEST_SERVICE_RSP,
                    actual: REQUEST_SERVICE_RSP,
                },
            )
        },
        other => r == Err::<Vec<u16>, Error>(
            Error::UnexpectedResponse {
                expected: REQUEST_SERVICE_RSP,
                actual: response_code_of(other),
            },
        ),
    }
}

/// What a Request Response projection returns.
pub open spec fn mode_projected(idm: Seq<u8>, m: ResponseModel, r: Result<u8>) -> bool {
    match m {
        ResponseModel::RequestResponse { idm: ri, mode } => if ri == idm {
            r == Ok::<u8, Error>(mode)
        } else {
            r == Err::<u8, Error>(
                Error::UnexpectedResponse {
                    expected: REQUEST_RESPONSE_RSP,
                    actual: REQUEST_RESPONSE_RSP,
                },
            )
        },
        other => r == Err::<u8, Error>(
            Error::UnexpectedResponse {
                expected: REQUEST_RESPONSE_RSP,
                actual: response_code_of(other),
            },
        ),
    }
}

/// What a Request System Code projection returns.
pub open spec fn system_codes_projected(
    idm: Seq<u8>,
    m: ResponseModel,
    r: Result<Vec<SystemCode>>,
) -> bool {
    match m {
        ResponseModel::RequestSystemCode { idm: ri, system_codes } => if ri == idm {
            r matches Ok(v) && v@.map_values(|c: SystemCode| c.0) == system_codes
        } else {
            r == Err::<Vec<SystemCode>, Error>(
                Error::UnexpectedResponse {
                    expected: REQUEST_SYSTEM_RSP,
                    actual: REQUEST_SYSTEM_RSP,
                },
            )
        },
        other => r == Err::<Vec<SystemCode>, Error>(
            Error::UnexpectedResponse {
                expected: REQUEST_SYSTEM_RSP,
                actual: response_code_of(other),
            },
        ),
    }
}

/// What one step of the service enumeration yields for the card `idm`.
pub open spec fn search_projected(idm: Seq<u8>, resp: Result<Response>, r: Option<Result<u16>>) -> bool {
    match resp {
        Ok(x) => match x@ {
            ResponseModel::SearchServiceCode { idm: ri, area_or_service_code } => if ri != idm {
                r == Some(
                    Err::<u16, Error>(
                        Error::UnexpectedResponse {
                            expected: SEARCH_SERVICE_RSP,
                            actual: SEARCH_SERVICE_RSP,
                        },
                    ),
                )
            } else {
                match area_or_service_code {
                    Some(c) => r == Some(Ok::<u16, Error>(c)),
                    None => r is None,
                }
            },
            _ => r == Some(
                Err::<u16, Error>(
                    Error::UnexpectedResponse { expected: SEARCH_SERVICE_RSP, actual: 0x00 },
                ),
            ),
        },
        Err(e) => r == Some(Err::<u16, Error>(e)),
    }
}

/// The operations of a read of `cb` and its result: the exchange, then the
/// read projection (an exchange error comes back unchanged).
pub open spec fn read_run(
    kind: DeviceType,
    model: AnyModel,
    idm: Seq<u8>,
    cb: Seq<u8>,
    log: Seq<Op>,
    r: Result<Vec<BlockData>>,
) -> bool {
    exists|rr: Result<Response>|
        #[trigger] exchange_run(kind, model, 0x06, cb, OPERATION_TIMEOUT_MS, log, rr) && match rr {
            Err(e) => r == Err::<Vec<BlockData>, Error>(e),
            Ok(resp) => read_projected(idm, resp@, r),
        }
}

/// The operations of a write of `cb` and its result.
pub open spec fn write_run(
    kind: DeviceType,
    model: AnyModel,
    idm: Seq<u8>,
    cb: Seq<u8>,
    log: Seq<Op>,
    r: Result<()>,
) -> bool {
    exists|rr: Result<Response>|
        #[trigger] exchange_run(kind, model, 0x08, cb, OPERATION_TIMEOUT_MS, log, rr) && match rr {
            Err(e) => r == Err::<(), Error>(e),
            Ok(resp) => write_projected(idm, resp@, r),
        }
}

/// The blocks of one service, with service index 0 and direct access,
/// as a read command for the card `idm`.
pub open spec fn single_read_bytes(idm: Seq<u8>, service: ServiceCode, block: u16) -> Seq<u8> {
    read_bytes(
        idm,
        seq![service],
        seq![
            BlockElement {
                service_index: 0,
                access_mode: AccessMode::DirectAccessOrRead,
                block_number: block,
            },
        ],
    )
}

/// A copy of a slice of plain values.
pub fn copy_items<T: Copy>(s: &[T]) -> (r: Vec<T>)
    ensures
        r@ == s@,
{
    let mut out: Vec<T> = Vec::new();
    let mut i: usize = 0;
    while i < s.len()
        invariant
            i <= s@.len(),
            out@ == s@.subrange(0, i as int),
        decreases s.len() - i,
    {
        out.push(s[i]);
        i += 1;
        proof {
            assert(out@ =~= s@.subrange(0, i as int));
        }
    }
    proof {
        assert(s@.subrange(0, s@.len() as int) =~= s@);
    }
    out
}

/// The IDm of a FeliCa card; other targets do not support the operation.
pub fn require_felica(card: &Card) -> (r: Result<Idm>)
    ensures
        match card@ {
            CardModel::TypeF { idm, .. } => r matches Ok(v) && v@ == idm,
            _ => r matches Err(e) && e is UnsupportedOperation,
        },
{
    match card {
        Card::TypeF { idm, .. } => Ok(*idm),
        _ => Err(
            Error::UnsupportedOperation(
                "operation is only supported for FeliCa (Type F) cards".to_string(),
            ),
        ),
    }
}

/// The blocks of a read response for the card `idm`.
pub fn read_projection(idm: &Idm, resp: Response) -> (r: Result<Vec<BlockData>>)
    ensures
        read_projected(idm@, resp@, r),
{
    match resp {
        Response::ReadWithoutEncryption { idm: ri, blocks, .. } => {
            if bytes_equal(&ri.0, &idm.0) {
                Ok(blocks)
            } else {
                Err(Error::UnexpectedResponse { expected: READ_RSP, actual: READ_RSP })
            }
        },
        _ => Err(Error::PollingFailed),
    }
}

/// The outcome of a write response for the card `idm`: the first status
/// pair must be zero.
pub fn write_projection(idm: &Idm, resp: Response) -> (r: Result<()>)
    ensures
        write_projected(idm@, resp@, r),
{
    match resp {
        Response::WriteWithoutEncryption { idm: ri, statuses } => {
            if !bytes_equal(&ri.0, &idm.0) {
                return Err(Error::UnexpectedResponse { expected: WRITE_RSP, actual: WRITE_RSP });
            }
            if statuses.len() == 0 {
                return Err(Error::InvalidLength { expected: 11, actual: 0 });
            }
            let (s1, s2) = statuses[0];
            if s1 != 0 || s2 != 0 {
                Err(Error::FelicaStatus { status1: s1, status2: s2 })
            } else {
                Ok(())
            }
        },
        _ => Err(Error::PollingFailed),
    }
}

/// The key versions of a Request Service response for the card `idm`.
pub fn versions_projection(idm: &Idm, resp: Response) -> (r: Result<Vec<u16>>)
    ensures
        versions_projected(idm@, resp@, r),
{
    let code = resp.response_code();
    match resp {
        Response::RequestService { idm: ri, versions } => {
            if bytes_equal(&ri.0, &idm.0) {
                Ok(versions)
            } else {
                Err(
                    Error::UnexpectedResponse {
                        expected: REQUEST_SERVICE_RSP,
                        actual: REQUEST_SERVICE_RSP,
                    },
                )
            }
        },
        _ => Err(Error::UnexpectedResponse { expected: REQUEST_SERVICE_RSP, actual: code }),
    }
}

/// The mode of a Request Response response for the card `idm`.
pub fn mode_projection(idm: &Idm, resp: Response) -> (r: Result<u8>)
    ensures
        mode_projected(idm@, resp@, r),
{
    let code = resp.response_code();
    match resp {
        Response::RequestResponse { idm: ri, mode } => {
            if bytes_equal(&ri.0, &idm.0) {
                Ok(mode)
            } else {
                Err(
                    Error::UnexpectedResponse {
                        expected: REQUEST_RESPONSE_RSP,
                        actual: REQUEST_RESPONSE_RSP,
                    },
                )
            }
        },
        _ => Err(Error::UnexpectedResponse { expected: REQUEST_RESPONSE_RSP, actual: code }),
    }
}

/// The system codes of a Request System Code response for the card `idm`.
pub fn system_codes_projection(idm: &Idm, resp: Response) -> (r: Result<Vec<SystemCode>>)
    ensures
        system_codes_projected(idm@, resp@, r),
{
    let code = resp.response_code();
    match resp {
        Response::RequestSystemCode { idm: ri, system_codes } => {
            if bytes_equal(&ri.0, &idm.0) {
                Ok(system_codes)
            } else {
                Err(
                    Error::UnexpectedResponse {
                        expected: REQUEST_SYSTEM_RSP,
                        actual: REQUEST_SYSTEM_RSP,
                    },
                )
            }
        },
        _ => Err(Error::UnexpectedResponse { expected: REQUEST_SYSTEM_RSP, actual: code }),
    }
}

/// One step of the service enumeration for the card `idm`: a present code
/// is yielded; an absent one ends the sequence; a response for another card
/// or of another kind, or an error, is yielded as an error and ends it.
pub fn search_projection(idm: &Idm, resp: Result<Response>) -> (r: Option<Result<u16>>)
    ensures
        search_projected(idm@, resp, r),
{
    match resp {
        Ok(Response::SearchServiceCode { idm: ri, area_or_service_code }) => {
            if !bytes_equal(&ri.0, &idm.0) {
                return Some(
                    Err(
                        Error::UnexpectedResponse {
                            expected: SEARCH_SERVICE_RSP,
                            actual: SEARCH_SERVICE_RSP,
                        },
                    ),
                );
            }
            match area_or_service_code {
                Some(code) => Some(Ok(code)),
                None => None,
            }
        },
        Ok(_) => Some(
            Err(Error::UnexpectedResponse { expected: SEARCH_SERVICE_RSP, actual: 0x00 }),
        ),
        Err(e) => Some(Err(e)),
    }
}

/// Reads blocks of a FeliCa card.
pub fn read_blocks<T: Transport>(
    card: &Card,
    device: &mut Device<T, Initialized>,
    services: &[ServiceCode],
    blocks: &[BlockElement],
) -> (r: Result<Vec<BlockData>>)
    ensures
        final(device).kind() == old(device).kind(),
        final(device).model() == old(device).model(),
        !(card@ is TypeF) ==> (r matches Err(e) && e is UnsupportedOperation),
        !(card@ is TypeF) ==> *final(device) == *old(device),
        card@ is TypeF ==> extends(old(device).trace(), final(device).trace()),
        card@ is TypeF ==> read_run(old(device).kind(), old(device).model(), felica_idm(card@), read_bytes(felica_idm(card@), services@, blocks@), appended(old(device).trace(), final(device).trace()), r),
{
    let idm = require_felica(card)?;
    let cmd = Command::ReadWithoutEncryption {
        idm,
        services: copy_items(services),
        blocks: copy_items(blocks),
    };
    let rr = device.execute(cmd, OPERATION_TIMEOUT_MS);
    proof {
        let _ = exchange_run(
            device.kind(),
            device.model(),
            0x06,
            command_bytes(cmd),
            OPERATION_TIMEOUT_MS,
            appended(old(device).trace(), device.trace()),
            rr,
        );
    }
    match rr {
        Ok(resp) => read_projection(&idm, resp),
        Err(e) => Err(e),
    }
}

/// Reads one block (direct access, service index 0) of a FeliCa card.
pub fn read_single<T: Transport>(
    card: &Card,
    device: &mut Device<T, Initialized>,
    service: ServiceCode,
    block: u16,
) -> (r: Result<BlockData>)
    ensures
        final(device).kind() == old(device).kind(),
        final(device).model() == old(device).model(),
        !(card@ is TypeF) ==> (r matches Err(e) && e is UnsupportedOperation),
        !(card@ is TypeF) ==> *final(device) == *old(device),
        card@ is TypeF ==> extends(old(device).trace(), final(device).trace()),
        card@ is TypeF ==> exists|rv: Result<Vec<BlockData>>|
            #[trigger] read_run(old(device).kind(), old(device).model(), felica_idm(card@), single_read_bytes(felica_idm(card@), service, block), appended(old(device).trace(), final(device).trace()), rv)
                && match rv {
                Err(e) => r == Err::<BlockData, Error>(e),
                Ok(v) => if v@.len() == 0 {
                    r == Err::<BlockData, Error>(Error::PollingFailed)
                } else {
                    r == Ok::<BlockData, Error>(v@[0])
                },
            },
{
    let services = [service];
    let elems = [BlockElement::new(0, AccessMode::DirectAccessOrRead, block)];
    proof {
        assert(services@ =~= seq![service]);
        assert(elems@ =~= seq![
            BlockElement {
                service_index: 0,
                access_mode: AccessMode::DirectAccessOrRead,
                block_number: block,
            },
        ]);
    }
    let rv = read_blocks(card, device, &services, &elems);
    proof {
        if card@ is TypeF {
            let sv: &[ServiceCode] = &services;
            let ev: &[BlockElement] = &elems;
            assert(single_read_bytes(felica_idm(card@), service, block) == read_bytes(
                felica_idm(card@),
                sv@,
                ev@,
            ));
            assert(read_run(
                old(device).kind(),
                old(device).model(),
                felica_idm(card@),
                single_read_bytes(felica_idm(card@), service, block),
                appended(old(device).trace(), device.trace()),
                rv,
            ));
        }
    }
    match rv {
        Ok(blocks) => {
            if blocks.len() == 0 {
                Err(Error::PollingFailed)
            } else {
                Ok(blocks[0])
            }
        },
        Err(e) => Err(e),
    }
}

/// Writes one block of a FeliCa card.
pub fn write_single<T: Transport>(
    card: &Card,
    device: &mut Device<T, Initialized>,
    service: ServiceCode,
    block: BlockElement,
    data: BlockData,
) -> (r: Result<()>)
    ensures
        final(device).kind() == old(device).kind(),
        final(device).model() == old(device).model(),
        !(card@ is TypeF) ==> (r matches Err(e) && e is UnsupportedOperation),
        !(card@ is TypeF) ==> *final(device) == *old(device),
        card@ is TypeF ==> extends(old(device).trace(), final(device).trace()),
        card@ is TypeF ==> write_run(old(device).kind(), old(device).model(), felica_idm(card@), write_bytes(felica_idm(card@), seq![service], seq![block], seq![data]), appended(old(device).trace(), final(device).trace()), r),
{
    let idm = require_felica(card)?;
    let cmd = Command::WriteWithoutEncryption { idm, service, block, data };
    let rr = device.execute(cmd, OPERATION_TIMEOUT_MS);
    match rr {
        Ok(resp) => write_projection(&idm, resp),
        Err(e) => Err(e),
    }
}

/// Writes several blocks of one service of a FeliCa card in one command;
/// an empty list writes nothing.
pub fn write_blocks<T: Transport>(
    card: &Card,
    device: &mut Device<T, Initialized>,
    service: ServiceCode,
    blocks: &[(BlockElement, BlockData)],
) -> (r: Result<()>)
    ensures
        final(device).kind() == old(device).kind(),
        final(device).model() == old(device).model(),
        !(card@ is TypeF) ==> (r matches Err(e) && e is UnsupportedOperation),
        !(card@ is TypeF) || blocks@.len() == 0 ==> *final(device) == *old(device),
        card@ is TypeF ==> extends(old(device).trace(), final(device).trace()),
        card@ is TypeF && blocks@.len() > 0 ==> write_run(
            old(device).kind(), old(device).model(),
            felica_idm(card@),
            write_bytes(
                felica_idm(card@),
                seq![service],
                blocks@.map_values(|p: (BlockElement, BlockData)| p.0),
                blocks@.map_values(|p: (BlockElement, BlockData)| p.1),
            ),
            appended(old(device).trace(), final(device).trace()),
            r,
        ),
        card@ is TypeF && blocks@.len() == 0 ==> r is Ok,
{
    let idm = require_felica(card)?;
    if blocks.len() == 0 {
        proof {
            lemma_appended_none(device.trace());
        }
        return Ok(());
    }
    let mut elems: Vec<BlockElement> = Vec::new();
    let mut datas: Vec<BlockData> = Vec::new();
    let mut i: usize = 0;
    while i < blocks.len()
        invariant
            i <= blocks@.len(),
            elems@.len() == i,
            datas@.len() == i,
            forall|k: int| 0 <= k < i ==> #[trigger] elems@[k] == blocks@[k].0,
            forall|k: int| 0 <= k < i ==> #[trigger] datas@[k] == blocks@[k].1,
        decreases blocks.len() - i,
    {
        let (e, d) = blocks[i];
        elems.push(e);
        datas.push(d);
        i += 1;
    }
    let services = vec![service];
    proof {
        assert(elems@ =~= blocks@.map_values(|p: (BlockElement, BlockData)| p.0));
        assert(datas@ =~= blocks@.map_values(|p: (BlockElement, BlockData)| p.1));
        assert(services@ =~= seq![service]);
    }
    let cmd = Command::WriteWithoutEncryptionMulti { idm, services, blocks: elems, data: datas };
    let rr = device.execute(cmd, OPERATION_TIMEOUT_MS);
    match rr {
        Ok(resp) => write_projection(&idm, resp),
        Err(e) => Err(e),
    }
}

/// Requests the key versions of nodes of a FeliCa card.
pub fn request_service_versions<T: Transport>(
    card: &Card,
    device: &mut Device<T, Initialized>,
    node_codes: &[u16],
) -> (r: Result<Vec<u16>>)
    ensures
        final(device).kind() == old(device).kind(),
        final(device).model() == old(device).model(),
        !(card@ is TypeF) ==> (r matches Err(e) && e is UnsupportedOperation),
        !(card@ is TypeF) ==> *final(device) == *old(device),
        card@ is TypeF ==> extends(old(device).trace(), final(device).trace()),
        card@ is TypeF ==> exists|rr: Result<Response>|
            #[trigger] exchange_run(old(device).kind(), old(device).model(), 0x02, request_service_bytes(felica_idm(card@), node_codes@), OPERATION_TIMEOUT_MS, appended(old(device).trace(), final(device).trace()), rr)
                && match rr {
                Err(e) => r == Err::<Vec<u16>, Error>(e),
                Ok(resp) => versions_projected(felica_idm(card@), resp@, r),
            },
{
    let idm = require_felica(card)?;
    let cmd = Command::RequestService { idm, node_codes: copy_items(node_codes) };
    let rr = device.execute(cmd, OPERATION_TIMEOUT_MS);
    proof {
        assert(exchange_run(
            old(device).kind(),
            old(device).model(),
            0x02,
            request_service_bytes(felica_idm(card@), node_codes@),
            OPERATION_TIMEOUT_MS,
            appended(old(device).trace(), device.trace()),
            rr,
        ));
    }
    match rr {
        Ok(resp) => versions_projection(&idm, resp),
        Err(e) => Err(e),
    }
}

/// Requests the response mode of a FeliCa card.
pub fn request_response_mode<T: Transport>(card: &Card, device: &mut Device<T, Initialized>) -> (r:
    Result<u8>)
    ensures
        final(device).kind() == old(device).kind(),
        final(device).model() == old(device).model(),
        !(card@ is TypeF) ==> (r matches Err(e) && e is UnsupportedOperation),
        !(card@ is TypeF) ==> *final(device) == *old(device),
        card@ is TypeF ==> extends(old(device).trace(), final(device).trace()),
        card@ is TypeF ==> exists|rr: Result<Response>|
            #[trigger] exchange_run(old(device).kind(), old(device).model(), 0x04, request_response_bytes(felica_idm(card@)), OPERATION_TIMEOUT_MS, appended(old(device).trace(), final(device).trace()), rr)
                && match rr {
                Err(e) => r == Err::<u8, Error>(e),
                Ok(resp) => mode_projected(felica_idm(card@), resp@, r),
            },
{
    let idm = require_felica(card)?;
    let rr = device.execute(Command::RequestResponse { idm }, OPERATION_TIMEOUT_MS);
    proof {
        assert(exchange_run(
            old(device).kind(),
            old(device).model(),
            0x04,
            request_response_bytes(felica_idm(card@)),
            OPERATION_TIMEOUT_MS,
            appended(old(device).trace(), device.trace()),
            rr,
        ));
    }
    match rr {
        Ok(resp) => mode_projection(&idm, resp),
        Err(e) => Err(e),
    }
}

/// Requests the system codes of a FeliCa card.
pub fn request_system_codes<T: Transport>(card: &Card, device: &mut Device<T, Initialized>) -> (r:
    Result<Vec<SystemCode>>)
    ensures
        final(device).kind() == old(device).kind(),
        final(device).model() == old(device).model(),
        !(card@ is TypeF) ==> (r matches Err(e) && e is UnsupportedOperation),
        !(card@ is TypeF) ==> *final(device) == *old(device),
        card@ is TypeF ==> extends(old(device).trace(), final(device).trace()),
        card@ is TypeF ==> exists|rr: Result<Response>|
            #[trigger] exchange_run(old(device).kind(), old(device).model(), 0x0c, request_system_code_bytes(felica_idm(card@)), OPERATION_TIMEOUT_MS, appended(old(device).trace(), final(device).trace()), rr)
                && match rr {
                Err(e) => r == Err::<Vec<SystemCode>, Error>(e),
                Ok(resp) => system_codes_projected(felica_idm(card@), resp@, r),
            },
{
    let idm = require_felica(card)?;
    let rr = device.execute(Command::RequestSystemCode { idm }, OPERATION_TIMEOUT_MS);
    proof {
        assert(exchange_run(
            old(device).kind(),
            old(device).model(),
            0x0c,
            request_system_code_bytes(felica_idm(card@)),
            OPERATION_TIMEOUT_MS,
            appended(old(device).trace(), device.trace()),
            rr,
        ));
    }
    match rr {
        Ok(resp) => system_codes_projection(&idm, resp),
        Err(e) => Err(e),
    }
}

/// Lazy enumeration of the service codes of a FeliCa card: Search Service
/// Code with index 0, 1, 2, ... until a code is absent or an error comes.
pub struct ServiceIterator<'a, T> {
    card: &'a Card,
    device: &'a mut Device<T, Initialized>,
    current_index: u16,
    finished: bool,
}

impl<'a, T: Transport> ServiceIterator<'a, T> {
    /// An enumeration that starts at index 0.
    pub fn new(card: &'a Card, device: &'a mut Device<T, Initialized>) -> (r: Self)
        ensures
            !r.is_finished(),
            r.index() == 0,
    {
        ServiceIterator { card, device, current_index: 0, finished: false }
    }

    /// Whether the enumeration has ended.
    pub closed spec fn is_finished(&self) -> bool {
        self.finished
    }

    /// The index of the next request.
    pub closed spec fn index(&self) -> u16 {
        self.current_index
    }

    /// The card being enumerated.
    pub closed spec fn card_view(&self) -> CardModel {
        self.card@
    }

    /// The generation of the reader.
    pub closed spec fn kind(&self) -> DeviceType {
        self.device.kind()
    }

    /// The model of the reader.
    pub closed spec fn model(&self) -> AnyModel {
        self.device.model()
    }

    /// The operations made on the reader's transport so far.
    pub closed spec fn trace(&self) -> Seq<Op> {
        self.device.trace()
    }

    /// The next service code, an error, or `None` at the end. A finished
    /// enumeration and a card that is not a FeliCa card make no request;
    /// otherwise one Search Service Code exchange is made with the current
    /// index, and its response decides as `search_projected` says. After an
    /// error or the end, nothing more is requested.
    pub fn next(&mut self) -> (r: Option<Result<u16>>)
        ensures
            final(self).card_view() == old(self).card_view(),
            final(self).kind() == old(self).kind(),
            final(self).model() == old(self).model(),
            old(self).is_finished() ==> r is None && final(self).is_finished()
                && final(self).trace() == old(self).trace(),
            !old(self).is_finished() && !(old(self).card_view() is TypeF) ==> (r matches Some(
                Err(e),
            ) && e is UnsupportedOperation) && final(self).is_finished() && final(self).trace()
                == old(self).trace(),
            !old(self).is_finished() && old(self).card_view() is TypeF ==> extends(
                old(self).trace(),
                final(self).trace(),
            ) && exists|rr: Result<Response>|
                #[trigger] exchange_run(
                    old(self).kind(),
                    old(self).model(),
                    0x0a,
                    search_service_code_bytes(felica_idm(old(self).card_view()), old(self).index()),
                    OPERATION_TIMEOUT_MS,
                    appended(old(self).trace(), final(self).trace()),
                    rr,
                ) && search_projected(felica_idm(old(self).card_view()), rr, r),
            r matches Some(Ok(_)) ==> !final(self).is_finished() && final(self).index() == (if old(self).index() == u16::MAX {
                u16::MAX
            } else {
                (old(self).index() + 1) as u16
            }),
            !(r matches Some(Ok(_))) ==> final(self).is_finished(),
    {
        if self.finished {
            return None;
        }
        let idm = match require_felica(self.card) {
            Ok(v) => v,
            Err(e) => {
                self.finished = true;
                return Some(Err(e));
            },
        };
        let cmd = Command::SearchServiceCode { idm, index: self.current_index };
        let resp = self.device.execute(cmd, OPERATION_TIMEOUT_MS);
        proof {
            assert(exchange_run(
                old(self).kind(),
                old(self).model(),
                0x0a,
                search_service_code_bytes(felica_idm(old(self).card_view()), old(self).index()),
                OPERATION_TIMEOUT_MS,
                appended(old(self).trace(), self.trace()),
                resp,
            ));
        }
        let step = search_projection(&idm, resp);
        match step {
            Some(Ok(code)) => {
                self.current_index = self.current_index.saturating_add(1);
                Some(Ok(code))
            },
            other => {
                self.finished = true;
                other
            },
        }
    }
}

impl Card {
    /// Reads blocks; only a FeliCa card supports it.
    pub fn read_blocks<T: Transport>(
        &self,
        device: &mut Device<T, Initialized>,
        services: &[ServiceCode],
        blocks: &[BlockElement],
    ) -> (r: Result<Vec<BlockData>>)
        ensures
            final(device).kind() == old(device).kind(),
            final(device).model() == old(device).model(),
            !(self@ is TypeF) ==> (r matches Err(e) && e is UnsupportedOperation),
            !(self@ is TypeF) ==> *final(device) == *old(device),
            self@ is TypeF ==> extends(old(device).trace(), final(device).trace()),
            self@ is TypeF ==> read_run(old(device).kind(), old(device).model(), felica_idm(self@), read_bytes(felica_idm(self@), services@, blocks@), appended(old(device).trace(), final(device).trace()), r),
    {
        read_blocks(self, device, services, blocks)
    }

    /// Reads one block; only a FeliCa card supports it.
    pub fn read_single<T: Transport>(
        &self,
        device: &mut Device<T, Initialized>,
        service: ServiceCode,
        block: u16,
    ) -> (r: Result<BlockData>)
        ensures
            final(device).kind() == old(device).kind(),
            final(device).model() == old(device).model(),
            !(self@ is TypeF) ==> (r matches Err(e) && e is UnsupportedOperation),
            !(self@ is TypeF) ==> *final(device) == *old(device),
            self@ is TypeF ==> extends(old(device).trace(), final(device).trace()),
            self@ is TypeF ==> exists|rv: Result<Vec<BlockData>>|
                #[trigger] read_run(old(device).kind(), old(device).model(), felica_idm(self@), single_read_bytes(felica_idm(self@), service, block), appended(old(device).trace(), final(device).trace()), rv)
                    && match rv {
                    Err(e) => r == Err::<BlockData, Error>(e),
                    Ok(v) => if v@.len() == 0 {
                        r == Err::<BlockData, Error>(Error::PollingFailed)
                    } else {
                        r == Ok::<BlockData, Error>(v@[0])
                    },
                },
    {
        read_single(self, device, service, block)
    }

    /// Writes one block (direct access, service index 0); only a FeliCa
    /// card supports it.
    pub fn write_single<T: Transport>(
        &self,
        device: &mut Device<T, Initialized>,
        service: ServiceCode,
        block: u16,
        data: BlockData,
    ) -> (r: Result<()>)
        ensures
            final(device).kind() == old(device).kind(),
            final(device).model() == old(device).model(),
            !(self@ is TypeF) ==> (r matches Err(e) && e is UnsupportedOperation),
            !(self@ is TypeF) ==> *final(device) == *old(device),
            self@ is TypeF ==> extends(old(device).trace(), final(device).trace()),
            self@ is TypeF ==> write_run(old(device).kind(), old(device).model(), felica_idm(self@), write_bytes(felica_idm(self@), seq![service], seq![(BlockElement { service_index: 0, access_mode: AccessMode::DirectAccessOrRead, block_number: block })], seq![data]), appended(old(device).trace(), final(device).trace()), r),
    {
        let blk = BlockElement::new(0, AccessMode::DirectAccessOrRead, block);
        write_single(self, device, service, blk, data)
    }

    /// Writes several blocks of one service; only a FeliCa card supports it.
    pub fn write_blocks<T: Transport>(
        &self,
        device: &mut Device<T, Initialized>,
        service: ServiceCode,
        blocks: &[(BlockElement, BlockData)],
    ) -> (r: Result<()>)
        ensures
            final(device).kind() == old(device).kind(),
            final(device).model() == old(device).model(),
            !(self@ is TypeF) ==> (r matches Err(e) && e is UnsupportedOperation),
            !(self@ is TypeF) || blocks@.len() == 0 ==> *final(device) == *old(device),
            self@ is TypeF ==> extends(old(device).trace(), final(device).trace()),
            self@ is TypeF && blocks@.len() > 0 ==> write_run(
                old(device).kind(), old(device).model(),
                felica_idm(self@),
                write_bytes(
                    felica_idm(self@),
                    seq![service],
                    blocks@.map_values(|p: (BlockElement, BlockData)| p.0),
                    blocks@.map_values(|p: (BlockElement, BlockData)| p.1),
                ),
                appended(old(device).trace(), final(device).trace()),
                r,
            ),
            self@ is TypeF && blocks@.len() == 0 ==> r is Ok,
    {
        write_blocks(self, device, service, blocks)
    }

    /// The lazy enumeration of the card's service codes.
    pub fn services<'a, T: Transport>(&'a self, device: &'a mut Device<T, Initialized>) -> (r:
        ServiceIterator<'a, T>)
        ensures
            !r.is_finished(),
            r.index() == 0,
    {
        ServiceIterator::new(self, device)
    }

    /// Key versions of nodes; only a FeliCa card supports it.
    pub fn request_service_versions<T: Transport>(
        &self,
        device: &mut Device<T, Initialized>,
        node_codes: &[u16],
    ) -> (r: Result<Vec<u16>>)
        ensures
            final(device).kind() == old(device).kind(),
            final(device).model() == old(device).model(),
            !(self@ is TypeF) ==> (r matches Err(e) && e is UnsupportedOperation),
            !(self@ is TypeF) ==> *final(device) == *old(device),
            self@ is TypeF ==> extends(old(device).trace(), final(device).trace()),
            self@ is TypeF ==> exists|rr: Result<Response>|
                #[trigger] exchange_run(old(device).kind(), old(device).model(), 0x02, request_service_bytes(felica_idm(self@), node_codes@), OPERATION_TIMEOUT_MS, appended(old(device).trace(), final(device).trace()), rr)
                    && match rr {
                    Err(e) => r == Err::<Vec<u16>, Error>(e),
                    Ok(resp) => versions_projected(felica_idm(self@), resp@, r),
                },
    {
        request_service_versions(self, device, node_codes)
    }

    /// The response mode; only a FeliCa card supports it.
    pub fn request_response_mode<T: Transport>(&self, device: &mut Device<T, Initialized>) -> (r:
        Result<u8>)
        ensures
            final(device).kind() == old(device).kind(),
            final(device).model() == old(device).model(),
            !(self@ is TypeF) ==> (r matches Err(e) && e is UnsupportedOperation),
            !(self@ is TypeF) ==> *final(device) == *old(device),
            self@ is TypeF ==> extends(old(device).trace(), final(device).trace()),
            self@ is TypeF ==> exists|rr: Result<Response>|
                #[trigger] exchange_run(old(device).kind(), old(device).model(), 0x04, request_response_bytes(felica_idm(self@)), OPERATION_TIMEOUT_MS, appended(old(device).trace(), final(device).trace()), rr)
                    && match rr {
                    Err(e) => r == Err::<u8, Error>(e),
                    Ok(resp) => mode_projected(felica_idm(self@), resp@, r),
                },
    {
        request_response_mode(self, device)
    }

    /// The system codes; only a FeliCa card supports it.
    pub fn request_system_codes<T: Transport>(&self, device: &mut Device<T, Initialized>) -> (r:
        Result<Vec<SystemCode>>)
        ensures
            final(device).kind() == old(device).kind(),
            final(device).model() == old(device).model(),
            !(self@ is TypeF) ==> (r matches Err(e) && e is UnsupportedOperation),
            !(self@ is TypeF) ==> *final(device) == *old(device),
            self@ is TypeF ==> extends(old(device).trace(), final(device).trace()),
            self@ is TypeF ==> exists|rr: Result<Response>|
                #[trigger] exchange_run(old(device).kind(), old(device).model(), 0x0c, request_system_code_bytes(felica_idm(self@)), OPERATION_TIMEOUT_MS, appended(old(device).trace(), final(device).trace()), rr)
                    && match rr {
                    Err(e) => r == Err::<Vec<SystemCode>, Error>(e),
                    Ok(resp) => system_codes_projected(felica_idm(self@), resp@, r),
                },
    {
        request_system_codes(self, device)
    }
}

} // verus!
