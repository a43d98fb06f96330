//! Command payloads: the per-command encoders and the `Command` union.

use vstd::prelude::*;
use vstd::seq_lib::*;

use crate::types::{
    append_bytes, block_element_bytes, le_bytes, BlockData, BlockElement, Idm, ServiceCode,
    SystemCode,
};

verus! {

/// Little-endian bytes of each code, one after another.
pub open spec fn le_list(codes: Seq<u16>) -> Seq<u8> {
    codes.map_values(|c: u16| le_bytes(c)).flatten()
}

/// The codes of a list of services.
pub open spec fn service_values(s: Seq<ServiceCode>) -> Seq<u16> {
    s.map_values(|c: ServiceCode| c.0)
}

/// The three-byte forms of block list elements, one after another.
pub open spec fn element_list(blocks: Seq<BlockElement>) -> Seq<u8> {
    blocks.map_values(|e: BlockElement| block_element_bytes(e)).flatten()
}

/// The sixteen bytes of each block, one after another.
pub open spec fn data_list(data: Seq<BlockData>) -> Seq<u8> {
    data.map_values(|d: BlockData| d@).flatten()
}

/// A count as it stands on the wire: one byte, modulo 256.
pub open spec fn count_byte(n: nat) -> u8 {
    (n % 256) as u8
}

/// Polling: `00`, system code, request code, time slot.
pub open spec fn polling_bytes(system_code: u16, request_code: u8, time_slot: u8) -> Seq<u8> {
    seq![0x00u8] + le_bytes(system_code) + seq![request_code, time_slot]
}

/// Read Without Encryption: `06`, IDm, services, block list.
pub open spec fn read_bytes(idm: Seq<u8>, services: Seq<ServiceCode>, blocks: Seq<BlockElement>) -> Seq<u8> {
    seq![0x06u8] + idm + seq![count_byte(services.len())] + le_list(service_values(services))
        + seq![count_byte(blocks.len())] + element_list(blocks)
}

/// Write Without Encryption: `08`, IDm, services, block list, block data.
pub open spec fn write_bytes(
    idm: Seq<u8>,
    services: Seq<ServiceCode>,
    blocks: Seq<BlockElement>,
    data: Seq<BlockData>,
) -> Seq<u8> {
    seq![0x08u8] + idm + seq![count_byte(services.len())] + le_list(service_values(services))
        + seq![count_byte(blocks.len())] + element_list(blocks) + data_list(data)
}

/// Request Service: `02`, IDm, node count, node codes.
pub open spec fn request_service_bytes(idm: Seq<u8>, nodes: Seq<u16>) -> Seq<u8> {
    seq![0x02u8] + idm + seq![count_byte(nodes.len())] + le_list(nodes)
}

/// Request Response: `04`, IDm.
pub open spec fn request_response_bytes(idm: Seq<u8>) -> Seq<u8> {
    seq![0x04u8] + idm
}

/// Request System Code: `0C`, IDm.
pub open spec fn request_system_code_bytes(idm: Seq<u8>) -> Seq<u8> {
    seq![0x0cu8] + idm
}

/// Search Service Code: `0A`, IDm, index.
pub open spec fn search_service_code_bytes(idm: Seq<u8>, index: u16) -> Seq<u8> {
    seq![0x0au8] + idm + le_bytes(index)
}

fn push_u16s(buf: &mut Vec<u8>, codes: &[u16])
    ensures
        final(buf)@ == old(buf)@ + le_list(codes@),
{
    let mut i: usize = 0;
    while i < codes.len()
        invariant
            i <= codes@.len(),
            buf@ == old(buf)@ + le_list(codes@.subrange(0, i as int)),
        decreases codes.len() - i,
    {
        let b = crate::types::u16_to_le(codes[i]);
        append_bytes(buf, &b);
        proof {
            let f = |c: u16| le_bytes(c);
            let pre = codes@.subrange(0, i as int);
            assert(codes@.subrange(0, i + 1).map_values(f) =~= pre.map_values(f).push(f(codes@[i as int])));
            pre.map_values(f).lemma_flatten_push(f(codes@[i as int]));
        }
        i += 1;
    }
    proof {
        assert(codes@.subrange(0, codes@.len() as int) =~= codes@);
    }
}

fn push_services(buf: &mut Vec<u8>, services: &[ServiceCode])
    ensures
        final(buf)@ == old(buf)@ + le_list(service_values(services@)),
{
    let mut i: usize = 0;
    while i < services.len()
        invariant
            i <= services@.len(),
            buf@ == old(buf)@ + le_list(service_values(services@.subrange(0, i as int))),
        decreases services.len() - i,
    {
        let b = services[i].to_le_bytes();
        append_bytes(buf, &b);
        proof {
            let f = |c: u16| le_bytes(c);
            let pre = service_values(services@.subrange(0, i as int));
            let c = services@[i as int].0;
            assert(service_values(services@.subrange(0, i + 1)) =~= pre.push(c));
            assert(pre.push(c).map_values(f) =~= pre.map_values(f).push(f(c)));
            pre.map_values(f).lemma_flatten_push(f(c));
        }
        i += 1;
    }
    proof {
        assert(services@.subrange(0, services@.len() as int) =~= services@);
    }
}

fn push_elements(buf: &mut Vec<u8>, blocks: &[BlockElement])
    ensures
        final(buf)@ == old(buf)@ + element_list(blocks@),
{
    let mut i: usize = 0;
    while i < blocks.len()
        invariant
            i <= blocks@.len(),
            buf@ == old(buf)@ + element_list(blocks@.subrange(0, i as int)),
        decreases blocks.len() - i,
    {
        let b = blocks[i].encode();
        append_bytes(buf, &b);
        proof {
            let f = |e: BlockElement| block_element_bytes(e);
            let pre = blocks@.subrange(0, i as int);
            assert(blocks@.subrange(0, i + 1).map_values(f) =~= pre.map_values(f).push(f(blocks@[i as int])));
            pre.map_values(f).lemma_flatten_push(f(blocks@[i as int]));
        }
        i += 1;
    }
    proof {
        assert(blocks@.subrange(0, blocks@.len() as int) =~= blocks@);
    }
}

fn push_block_data(buf: &mut Vec<u8>, data: &[BlockData])
    ensures
        final(buf)@ == old(buf)@ + data_list(data@),
{
    let mut i: usize = 0;
    while i < data.len()
        invariant
            i <= data@.len(),
            buf@ == old(buf)@ + data_list(data@.subrange(0, i as int)),
        decreases data.len() - i,
    {
        append_bytes(buf, data[i].as_bytes());
        proof {
            let f = |d: BlockData| d@;
            let pre = data@.subrange(0, i as int);
            assert(data@.subrange(0, i + 1).map_values(f) =~= pre.map_values(f).push(f(data@[i as int])));
            pre.map_values(f).lemma_flatten_push(f(data@[i as int]));
        }
        i += 1;
    }
    proof {
        assert(data@.subrange(0, data@.len() as int) =~= data@);
    }
}

/// Encodes a Polling command payload.
pub fn encode_polling(system_code: SystemCode, request_code: u8, time_slot: u8) -> (r: Vec<u8>)
    ensures
        r@ == polling_bytes(system_code.0, request_code, time_slot),
{
    let mut buf: Vec<u8> = Vec::new();
    buf.push(0x00);
    append_bytes(&mut buf, &system_code.to_le_bytes());
    buf.push(request_code);
    buf.push(time_slot);
    proof {
        assert(buf@ =~= polling_bytes(system_code.0, request_code, time_slot));
    }
    buf
}

/// Encodes a Read Without Encryption command payload.
pub fn encode_read(idm: Idm, services: &[ServiceCode], blocks: &[BlockElement]) -> (r: Vec<u8>)
    ensures
        r@ == read_bytes(idm@, services@, blocks@),
{
    let mut buf: Vec<u8> = Vec::new();
    buf.push(0x06);
    append_bytes(&mut buf, idm.as_bytes());
    buf.push((services.len() % 256) as u8);
    push_services(&mut buf, services);
    buf.push((blocks.len() % 256) as u8);
    push_elements(&mut buf, blocks);
    proof {
        assert(buf@ =~= read_bytes(idm@, services@, blocks@));
    }
    buf
}

/// Encodes a Write Without Encryption command payload for one block.
pub fn encode_write(idm: Idm, service: ServiceCode, block: BlockElement, data: BlockData) -> (r: Vec<u8>)
    ensures
        r@ == write_bytes(idm@, seq![service], seq![block], seq![data]),
{
    let services = [service];
    let blocks = [block];
    let datas = [data];
    proof {
        assert(services@ =~= seq![service]);
        assert(blocks@ =~= seq![block]);
        assert(datas@ =~= seq![data]);
    }
    encode_write_multi(idm, &services, &blocks, &datas)
}

/// Encodes a Write Without Encryption command payload for many blocks.
pub fn encode_write_multi(
    idm: Idm,
    services: &[ServiceCode],
    blocks: &[BlockElement],
    data_blocks: &[BlockData],
) -> (r: Vec<u8>)
    ensures
        r@ == write_bytes(idm@, services@, blocks@, data_blocks@),
{
    let mut buf: Vec<u8> = Vec::new();
    buf.push(0x08);
    append_bytes(&mut buf, idm.as_bytes());
    buf.push((services.len() % 256) as u8);
    push_services(&mut buf, services);
    buf.push((blocks.len() % 256) as u8);
    push_elements(&mut buf, blocks);
    push_block_data(&mut buf, data_blocks);
    proof {
        assert(buf@ =~= write_bytes(idm@, services@, blocks@, data_blocks@));
    }
    buf
}

/// Encodes a Request Service command payload.
pub fn encode_request_service(idm: Idm, node_codes: &[u16]) -> (r: Vec<u8>)
    ensures
        r@ == request_service_bytes(idm@, node_codes@),
{
    let mut buf: Vec<u8> = Vec::new();
    buf.push(0x02);
    append_bytes(&mut buf, idm.as_bytes());
    buf.push((node_codes.len() % 256) as u8);
    push_u16s(&mut buf, node_codes);
    proof {
        assert(buf@ =~= request_service_bytes(idm@, node_codes@));
    }
    buf
}

/// Encodes a Request Response command payload.
pub fn encode_request_response(idm: Idm) -> (r: Vec<u8>)
    ensures
        r@ == request_response_bytes(idm@),
{
    let mut buf: Vec<u8> = Vec::new();
    buf.push(0x04);
    append_bytes(&mut buf, idm.as_bytes());
    proof {
        assert(buf@ =~= request_response_bytes(idm@));
    }
    buf
}

/// Encodes a Request System Code command payload.
pub fn encode_request_system_code(idm: Idm) -> (r: Vec<u8>)
    ensures
        r@ == request_system_code_bytes(idm@),
{
    let mut buf: Vec<u8> = Vec::new();
    buf.push(0x0c);
    append_bytes(&mut buf, idm.as_bytes());
    proof {
        assert(buf@ =~= request_system_code_bytes(idm@));
    }
    buf
}

/// Encodes a Search Service Code command payload.
pub fn encode_search_service_code(idm: Idm, index: u16) -> (r: Vec<u8>)
    ensures
        r@ == search_service_code_bytes(idm@, index),
{
    let mut buf: Vec<u8> = Vec::new();
    buf.push(0x0a);
    append_bytes(&mut buf, idm.as_bytes());
    append_bytes(&mut buf, &crate::types::u16_to_le(index));
    proof {
        assert(buf@ =~= search_service_code_bytes(idm@, index));
    }
    buf
}

/// A FeliCa command.
#[derive(Debug, Clone)]
pub enum Command {
    Polling { system_code: SystemCode, request_code: u8, time_slot: u8 },
    ReadWithoutEncryption { idm: Idm, services: Vec<ServiceCode>, blocks: Vec<BlockElement> },
    WriteWithoutEncryption { idm: Idm, service: ServiceCode, block: BlockElement, data: BlockData },
    WriteWithoutEncryptionMulti {
        idm: Idm,
        services: Vec<ServiceCode>,
        blocks: Vec<BlockElement>,
        data: Vec<BlockData>,
    },
    RequestService { idm: Idm, node_codes: Vec<u16> },
    RequestResponse { idm: Idm },
    RequestSystemCode { idm: Idm },
    SearchServiceCode { idm: Idm, index: u16 },
}

/// The command code of a command: the first byte of its payload.
pub open spec fn command_code_of(c: Command) -> u8 {
    match c {
        Command::Polling { .. } => 0x00,
        Command::ReadWithoutEncryption { .. } => 0x06,
        Command::WriteWithoutEncryption { .. } => 0x08,
        Command::WriteWithoutEncryptionMulti { .. } => 0x08,
        Command::RequestService { .. } => 0x02,
        Command::RequestResponse { .. } => 0x04,
        Command::RequestSystemCode { .. } => 0x0c,
        Command::SearchServiceCode { .. } => 0x0a,
    }
}

/// The payload of a command.
pub open spec fn command_bytes(c: Command) -> Seq<u8> {
    match c {
        Command::Polling { system_code, request_code, time_slot } => polling_bytes(
            system_code.0,
            request_code,
            time_slot,
        ),
        Command::ReadWithoutEncryption { idm, services, blocks } => read_bytes(
            idm@,
            services@,
            blocks@,
        ),
        Command::WriteWithoutEncryption { idm, service, block, data } => write_bytes(
            idm@,
            seq![service],
            seq![block],
            seq![data],
        ),
        Command::WriteWithoutEncryptionMulti { idm, services, blocks, data } => write_bytes(
            idm@,
            services@,
            blocks@,
            data@,
        ),
        Command::RequestService { idm, node_codes } => request_service_bytes(idm@, node_codes@),
        Command::RequestResponse { idm } => request_response_bytes(idm@),
        Command::RequestSystemCode { idm } => request_system_code_bytes(idm@),
        Command::SearchServiceCode { idm, index } => search_service_code_bytes(idm@, index),
    }
}

impl Command {
    /// The command code: the first byte of the payload.
    pub fn command_code(&self) -> (r: u8)
        ensures
            r == command_code_of(*self),
    {
        match self {
            Command::Polling { .. } => 0x00,
            Command::ReadWithoutEncryption { .. } => 0x06,
            Command::WriteWithoutEncryption { .. } => 0x08,
            Command::WriteWithoutEncryptionMulti { .. } => 0x08,
            Command::RequestService { .. } => 0x02,
            Command::RequestResponse { .. } => 0x04,
            Command::RequestSystemCode { .. } => 0x0c,
            Command::SearchServiceCode { .. } => 0x0a,
        }
    }

    /// Encodes the command payload, command code first.
    pub fn encode(&self) -> (r: Vec<u8>)
        ensures
            r@ == command_bytes(*self),
            r@.len() > 0 && r@[0] == command_code_of(*self),
    {
        match self {
            Command::Polling { system_code, request_code, time_slot } => encode_polling(
                *system_code,
                *request_code,
                *time_slot,
            ),
            Command::ReadWithoutEncryption { idm, services, blocks } => encode_read(
                *idm,
                services.as_slice(),
                blocks.as_slice(),
            ),
            Command::WriteWithoutEncryption { idm, service, block, data } => encode_write(
                *idm,
                *service,
                *block,
                *data,
            ),
            Command::WriteWithoutEncryptionMulti { idm, services, blocks, data } => {
                encode_write_multi(*idm, services.as_slice(), blocks.as_slice(), data.as_slice())
            },
            Command::RequestService { idm, node_codes } => encode_request_service(
                *idm,
                node_codes.as_slice(),
            ),
            Command::RequestResponse { idm } => encode_request_response(*idm),
            Command::RequestSystemCode { idm } => encode_request_system_code(*idm),
            Command::SearchServiceCode { idm, index } => encode_search_service_code(*idm, *index),
        }
    }
}

/// A single-block write is the multi-block write of one service and one
/// block.
pub proof fn single_write_is_multi_write(
    idm: Idm,
    service: ServiceCode,
    block: BlockElement,
    data: BlockData,
    services: Vec<ServiceCode>,
    blocks: Vec<BlockElement>,
    datas: Vec<BlockData>,
)
    requires
        services@ == seq![service],
        blocks@ == seq![block],
        datas@ == seq![data],
    ensures
        command_bytes(Command::WriteWithoutEncryption { idm, service, block, data })
            == command_bytes(
            Command::WriteWithoutEncryptionMulti { idm, services, blocks, data: datas },
        ),
        command_code_of(Command::WriteWithoutEncryption { idm, service, block, data })
            == command_code_of(
            Command::WriteWithoutEncryptionMulti { idm, services, blocks, data: datas },
        ),
{
}

} // verus!
