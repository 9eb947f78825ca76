//! The proving operations as the node answers them: what each hands to the
//! proof engine or the note store, and what it makes of their answers.

use vstd::prelude::*;
use vstd::string::*;
use crate::codec::decode_element;
use crate::codec::decode_error_text;
use crate::codec::element_hex;
use crate::codec::element_to_hex;
use crate::codec::hex_to_element;
use crate::codec::DecodeError;
use crate::element::u64_be_bytes;
use crate::element::Element;
use crate::error::ApiError;
use crate::error::ErrorKind;
use crate::error::STATUS_BAD_REQUEST;
use crate::error::STATUS_INTERNAL;
use crate::notes::element_views;
use crate::notes::note_field_text;
use crate::notes::note_spec;
use crate::notes::parse_note;
use crate::notes::texts;
use crate::notes::Note;
use crate::text::decimal;
use crate::text::decimal_text;
use crate::transfer::build_error_text;
use crate::transfer::build_spec;
use crate::transfer::build_transfer_request;
use crate::transfer::ProveTransferRequest;
use crate::transfer::TransferRequest;

verus! {

/// Request to derive the address of a secret key.
#[derive(Debug)]
pub struct DeriveAddressRequest {
    pub secret_key: String,
}

/// The derived address, as hex text.
#[derive(Debug)]
pub struct DeriveAddressResponse {
    pub address: String,
}

/// Request to compute the commitment of a note.
#[derive(Debug)]
pub struct CommitmentRequest {
    pub address: String,
    pub psi: String,
    pub value: String,
    pub token: String,
    pub source: String,
}

/// Request to mint test tokens.
#[derive(Debug)]
pub struct FaucetRequest {
    /// Address of the recipient, as hex text.
    pub address: String,
    /// Amount to mint, in smallest units.
    pub amount: u64,
}

/// The note that the faucet has minted, every element as hex text.
#[derive(Debug)]
pub struct FaucetNoteInfo {
    pub address: String,
    pub psi: String,
    pub value: String,
    pub commitment: String,
}

/// Response of the faucet.
#[derive(Debug)]
pub struct FaucetResponse {
    pub success: bool,
    pub amount: u64,
    pub note: FaucetNoteInfo,
}

/// Request for the merkle paths of note commitments.
#[derive(Debug)]
pub struct MerklePathsRequest {
    /// Commitments, as hex texts.
    pub commitments: Vec<String>,
}

/// The path of one commitment.
#[derive(Debug)]
pub struct MerklePathInfo {
    /// The commitment as the request gave it.
    pub commitment: String,
    /// The siblings on the path, as hex texts; empty where none was found.
    pub path: Vec<String>,
    pub found: bool,
}

/// The current root and the path of each commitment asked for.
#[derive(Debug)]
pub struct MerklePathsResponse {
    pub root: String,
    pub paths: Vec<MerklePathInfo>,
}

/// The message for a text of a request that denotes no element: the name
/// of the text, then what is wrong with it.
pub open spec fn field_error_text(name: Seq<char>, cause: DecodeError) -> Seq<char> {
    name + ": "@ + decode_error_text(cause)
}

/// The report of a failure is that of a request text that denotes no
/// element: a validation error, answered 400, with the given message.
pub open spec fn is_validation_report(report: ApiError, message: Seq<char>) -> bool {
    &&& report.kind == ErrorKind::Validation
    &&& report.status == STATUS_BAD_REQUEST
    &&& report.message@ == message
}

/// Reports a text of a request that denotes no element.
pub fn field_error(name: &str, cause: DecodeError) -> (report: ApiError)
    ensures
        is_validation_report(report, field_error_text(name@, cause)),
{
    let what = cause.message();
    ApiError {
        kind: ErrorKind::Validation,
        status: STATUS_BAD_REQUEST,
        message: name.to_string().concat(": ").concat(what.as_str()),
    }
}

/// The message that answers any failure of the proof engine or the note
/// store. It says nothing of what went wrong inside.
pub open spec fn engine_failure_text() -> Seq<char> {
    "Internal server error"@
}

/// Reports a failure of the proof engine or the note store.
pub fn engine_failure() -> (report: ApiError)
    ensures
        report.kind == ErrorKind::Engine,
        report.status == STATUS_INTERNAL,
        report.message@ == engine_failure_text(),
{
    ApiError {
        kind: ErrorKind::Engine,
        status: STATUS_INTERNAL,
        message: "Internal server error".to_string(),
    }
}

/// Prepares the proof of a transfer: builds the request that the proof
/// engine is to be handed, or reports the first text of the description
/// that denotes no element.
pub fn prove_transfer(req: &ProveTransferRequest) -> (r: Result<TransferRequest, ApiError>)
    ensures
        match build_spec(*req) {
            Ok(request) => r matches Ok(built) && built@ == request,
            Err(e) => r matches Err(report) && is_validation_report(report, build_error_text(e)),
        },
{
    match build_transfer_request(req) {
        Ok(request) => Ok(request),
        Err(e) => {
            let name = e.field.name();
            Err(field_error(name.as_str(), e.cause))
        },
    }
}

/// Reads the secret key whose address is to be derived.
pub fn derive_address_key(req: &DeriveAddressRequest) -> (r: Result<Element, ApiError>)
    ensures
        match decode_element(req.secret_key@) {
            Ok(key) => r matches Ok(e) && e@ == key,
            Err(cause) => r matches Err(report) && is_validation_report(
                report,
                field_error_text("secret_key"@, cause),
            ),
        },
{
    match hex_to_element(req.secret_key.as_str()) {
        Ok(key) => Ok(key),
        Err(cause) => Err(field_error("secret_key", cause)),
    }
}

/// The answer that carries a derived address.
pub fn derive_address_response(address: Element) -> (response: DeriveAddressResponse)
    ensures
        response.address@ == element_hex(address@),
{
    DeriveAddressResponse { address: element_to_hex(address) }
}

/// `rand::thread_rng` and `RngCore::fill_bytes` on a buffer of 32 bytes:
/// fresh bytes from the random number generator of the thread. Nothing is
/// promised of them. The generator is seeded from the operating system
/// when a thread first asks for it, and panics there if the system has no
/// randomness to give.
#[verifier::external_body]
fn random_bytes() -> (bytes: [u8; 32]) {
    let mut bytes = [0u8; 32];
    rand::RngCore::fill_bytes(&mut rand::thread_rng(), &mut bytes);
    bytes
}

/// The text of the randomness made of the given bytes.
pub fn psi_text(bytes: [u8; 32]) -> (text: String)
    ensures
        text@ == element_hex(bytes@),
{
    element_to_hex(Element::from_be_bytes(bytes))
}

/// Draws the randomness for a new note and returns it as hex text.
pub fn generate_psi() -> (text: String)
    ensures
        exists|bytes: Seq<u8>| bytes.len() == 32 && text@ == #[trigger] element_hex(bytes),
{
    let bytes = random_bytes();
    psi_text(bytes)
}

/// Reads the note whose commitment is to be computed.
pub fn commitment_note(req: &CommitmentRequest) -> (r: Result<Note, ApiError>)
    ensures
        match note_spec(req.address@, req.psi@, req.value@, req.token@, req.source@) {
            Ok(note) => r matches Ok(n) && n@ == note,
            Err(e) => r matches Err(report) && is_validation_report(
                report,
                field_error_text(note_field_text(e.field), e.cause),
            ),
        },
{
    match parse_note(
        req.address.as_str(),
        req.psi.as_str(),
        req.value.as_str(),
        req.token.as_str(),
        req.source.as_str(),
    ) {
        Ok(note) => Ok(note),
        Err(e) => {
            let name = e.field.name();
            Err(field_error(name.as_str(), e.cause))
        },
    }
}

/// The amount that the faucet mints where a request names none: 100 units
/// of a token with six decimals.
pub const DEFAULT_FAUCET_AMOUNT: u64 = 100_000_000;

/// The amount that the faucet mints where a request names none.
pub fn default_faucet_amount() -> (amount: u64)
    ensures
        amount == DEFAULT_FAUCET_AMOUNT,
{
    DEFAULT_FAUCET_AMOUNT
}

/// Reads the recipient of a faucet request and turns its amount into the
/// value of the note to mint.
pub fn faucet_note(req: &FaucetRequest) -> (r: Result<(Element, Element), ApiError>)
    ensures
        match decode_element(req.address@) {
            Ok(address) => r matches Ok(pair) && pair.0@ == address && pair.1@ == u64_be_bytes(
                req.amount,
            ),
            Err(cause) => r matches Err(report) && is_validation_report(
                report,
                field_error_text("address"@, cause),
            ),
        },
{
    match hex_to_element(req.address.as_str()) {
        Ok(address) => Ok((address, Element::from_u64(req.amount))),
        Err(cause) => Err(field_error("address", cause)),
    }
}

/// The answer of the faucet for a minted note.
pub fn faucet_response(
    amount: u64,
    address: Element,
    psi: Element,
    value: Element,
    commitment: Element,
) -> (response: FaucetResponse)
    ensures
        response.success,
        response.amount == amount,
        response.note.address@ == element_hex(address@),
        response.note.psi@ == element_hex(psi@),
        response.note.value@ == element_hex(value@),
        response.note.commitment@ == element_hex(commitment@),
{
    FaucetResponse {
        success: true,
        amount,
        note: FaucetNoteInfo {
            address: element_to_hex(address),
            psi: element_to_hex(psi),
            value: element_to_hex(value),
            commitment: element_to_hex(commitment),
        },
    }
}

/// The name of the commitment at place `k` of a request.
pub open spec fn commitment_field_text(k: nat) -> Seq<char> {
    "commitments["@ + decimal_text(k) + "]"@
}

/// The elements that the commitments of a request denote; the first text
/// that denotes no element is reported with its place.
pub open spec fn commitments_spec(commitments: Seq<Seq<char>>) -> Result<Seq<Seq<u8>>, (
    nat,
    DecodeError,
)>
    decreases commitments.len(),
{
    if commitments.len() == 0 {
        Ok(Seq::empty())
    } else {
        match commitments_spec(commitments.drop_last()) {
            Err(e) => Err(e),
            Ok(front) => match decode_element(commitments.last()) {
                Err(cause) => Err(((commitments.len() - 1) as nat, cause)),
                Ok(commitment) => Ok(front.push(commitment)),
            },
        }
    }
}

proof fn lemma_commitments_failure(commitments: Seq<Seq<char>>, k: int)
    requires
        0 <= k <= commitments.len(),
        commitments_spec(commitments.take(k)) is Err,
    ensures
        commitments_spec(commitments) == commitments_spec(commitments.take(k)),
    decreases commitments.len(),
{
    if k < commitments.len() {
        assert(commitments.drop_last().take(k) =~= commitments.take(k));
        lemma_commitments_failure(commitments.drop_last(), k);
    } else {
        assert(commitments.take(k) =~= commitments);
    }
}

/// Reads the commitments whose paths are asked for.
pub fn decode_commitments(req: &MerklePathsRequest) -> (r: Result<Vec<Element>, ApiError>)
    ensures
        match commitments_spec(texts(req.commitments@)) {
            Ok(commitments) => r matches Ok(elements) && element_views(elements@) == commitments,
            Err(e) => r matches Err(report) && is_validation_report(
                report,
                field_error_text(commitment_field_text(e.0), e.1),
            ),
        },
{
    let ghost all = texts(req.commitments@);
    let n: usize = req.commitments.len();
    let mut elements: Vec<Element> = Vec::new();
    let mut k: usize = 0;
    proof {
        assert(all.take(0) =~= Seq::<Seq<char>>::empty());
        assert(element_views(elements@) =~= Seq::<Seq<u8>>::empty());
    }
    while k < n
        invariant
            n == req.commitments.len(),
            all == texts(req.commitments@),
            k <= n,
            commitments_spec(all.take(k as int)) == Ok::<Seq<Seq<u8>>, (nat, DecodeError)>(
                element_views(elements@),
            ),
        decreases n - k,
    {
        proof {
            assert(all.take(k + 1).drop_last() =~= all.take(k as int));
            assert(all.take(k + 1).last() == req.commitments@[k as int]@);
        }
        match hex_to_element(req.commitments[k].as_str()) {
            Err(cause) => {
                proof {
                    lemma_commitments_failure(all, k + 1);
                }
                let at = decimal(k as u64);
                let name = "commitments[".to_string().concat(at.as_str()).concat("]");
                return Err(field_error(name.as_str(), cause));
            },
            Ok(commitment) => {
                proof {
                    assert(element_views(elements@.push(commitment)) =~= element_views(
                        elements@,
                    ).push(commitment@));
                }
                elements.push(commitment);
            },
        }
        k = k + 1;
    }
    proof {
        assert(all.take(n as int) =~= all);
    }
    Ok(elements)
}

/// The hex texts of a sequence of elements.
pub open spec fn hex_texts(elements: Seq<Seq<u8>>) -> Seq<Seq<char>> {
    elements.map_values(|e: Seq<u8>| element_hex(e))
}

/// What a lookup in the note store has found: the first of the paths it
/// returned, where it returned one that is not empty.
pub open spec fn found_path(lookup: Option<Vec<Vec<Element>>>) -> Option<Seq<Seq<u8>>> {
    match lookup {
        Some(paths) => if paths@.len() > 0 && paths@[0]@.len() > 0 {
            Some(element_views(paths@[0]@))
        } else {
            None
        },
        None => None,
    }
}

/// Encodes each element of a path as hex text.
pub fn encode_path(path: &Vec<Element>) -> (out: Vec<String>)
    ensures
        texts(out@) == hex_texts(element_views(path@)),
{
    let n: usize = path.len();
    let mut out: Vec<String> = Vec::new();
    let mut k: usize = 0;
    while k < n
        invariant
            n == path.len(),
            k <= n,
            out.len() == k,
            forall|i: int| 0 <= i < k ==> (#[trigger] out@[i])@ == element_hex(path@[i]@),
        decreases n - k,
    {
        out.push(element_to_hex(path[k]));
        k = k + 1;
    }
    assert(texts(out@) =~= hex_texts(element_views(path@)));
    out
}

/// The entry tells what the lookup for one commitment has found: it holds
/// the commitment as the request gave it, and the path found, as hex texts,
/// or no path and the mark that none was found.
pub open spec fn is_path_entry(
    info: MerklePathInfo,
    commitment: Seq<char>,
    lookup: Option<Vec<Vec<Element>>>,
) -> bool {
    &&& info.commitment@ == commitment
    &&& match found_path(lookup) {
        Some(path) => info.found && texts(info.path@) == hex_texts(path),
        None => !info.found && info.path@.len() == 0,
    }
}

/// The path information for one commitment, from what the lookup in the
/// note store returned: `None` for a failed lookup, else the paths found.
pub fn merkle_path_info(commitment: &str, lookup: &Option<Vec<Vec<Element>>>) -> (info:
    MerklePathInfo)
    ensures
        is_path_entry(info, commitment@, *lookup),
{
    match lookup {
        Some(paths) => {
            if paths.len() > 0 && paths[0].len() > 0 {
                return MerklePathInfo {
                    commitment: commitment.to_string(),
                    path: encode_path(&paths[0]),
                    found: true,
                };
            }
        },
        None => {},
    }
    MerklePathInfo { commitment: commitment.to_string(), path: Vec::new(), found: false }
}

/// The answer that carries the current root and the paths.
pub fn merkle_paths_response(root: Element, paths: Vec<MerklePathInfo>) -> (response:
    MerklePathsResponse)
    ensures
        response.root@ == element_hex(root@),
        response.paths == paths,
{
    MerklePathsResponse { root: element_to_hex(root), paths }
}

/// The lookup that belongs to the commitment at place `i`: the one at that
/// place of the list, and a failed lookup where the list has none there.
pub open spec fn lookup_at(lookups: Seq<Option<Vec<Vec<Element>>>>, i: int) -> Option<
    Vec<Vec<Element>>,
> {
    if 0 <= i < lookups.len() {
        lookups[i]
    } else {
        None
    }
}

/// Answers a request for merkle paths from the current root and from what
/// the lookups in the note store returned, one lookup for each commitment
/// and in the order of the request. The answer holds one entry for each
/// commitment, in that order.
pub fn merkle_paths_for_notes(
    req: &MerklePathsRequest,
    root: Element,
    lookups: &Vec<Option<Vec<Vec<Element>>>>,
) -> (response: MerklePathsResponse)
    ensures
        response.root@ == element_hex(root@),
        response.paths@.len() == req.commitments@.len(),
        forall|i: int|
            0 <= i < req.commitments@.len() ==> is_path_entry(
                #[trigger] response.paths@[i],
                req.commitments@[i]@,
                lookup_at(lookups@, i),
            ),
{
    let n: usize = req.commitments.len();
    let missing: Option<Vec<Vec<Element>>> = None;
    let mut paths: Vec<MerklePathInfo> = Vec::new();
    let mut k: usize = 0;
    while k < n
        invariant
            n == req.commitments.len(),
            missing is None,
            k <= n,
            paths.len() == k,
            forall|i: int|
                0 <= i < k ==> is_path_entry(
                    #[trigger] paths@[i],
                    req.commitments@[i]@,
                    lookup_at(lookups@, i),
                ),
        decreases n - k,
    {
        let lookup = if k < lookups.len() {
            &lookups[k]
        } else {
            &missing
        };
        let info = merkle_path_info(req.commitments[k].as_str(), lookup);
        paths.push(info);
        k = k + 1;
    }
    merkle_paths_response(root, paths)
}

} // verus!
