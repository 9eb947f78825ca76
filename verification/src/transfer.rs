//! The proof request builder: turns the description of a transfer, with any
//! number of notes, into the request of fixed shape that the proof engine
//! takes, with two notes to spend and two to create.

use vstd::prelude::*;
use vstd::string::*;
use crate::codec::decode_element;
use crate::codec::decode_error_text;
use crate::codec::hex_to_element;
use crate::codec::DecodeError;
use crate::element::zero_bytes;
use crate::element::Element;
use crate::notes::input_note_spec;
use crate::notes::note_field_text;
use crate::notes::output_note_spec;
use crate::notes::parse_input_note;
use crate::notes::parse_output_note;
use crate::notes::InputNote;
use crate::notes::InputNoteModel;
use crate::notes::InputNoteRequest;
use crate::notes::Note;
use crate::notes::NoteField;
use crate::notes::NoteModel;
use crate::notes::OutputNoteRequest;
use crate::text::decimal;
use crate::text::decimal_text;
use crate::text::str_eq;

verus! {

/// Request to prove a transfer.
#[derive(Debug)]
pub struct ProveTransferRequest {
    /// Secret key of the sender, as hex text.
    pub secret_key: String,
    /// Notes to spend.
    pub inputs: Vec<InputNoteRequest>,
    /// Notes to create.
    pub outputs: Vec<OutputNoteRequest>,
    /// Root of the commitment tree, as hex text.
    pub merkle_root: String,
    /// `transfer`, `mint` or `burn`; inferred from the notes where absent.
    pub kind: Option<String>,
}

/// The kind of a transaction.
#[derive(Clone, Copy, Debug, PartialEq, Eq, Structural)]
pub enum TransactionKind {
    Mint,
    Burn,
    Transfer,
}

/// One of the two places for a note to spend.
#[derive(Clone, Debug)]
pub enum InputSlot {
    /// No note: the engine is handed its padding note.
    Padding,
    /// A note of the request.
    Spend(InputNote),
}

/// One of the two places for a note to create.
#[derive(Clone, Debug)]
pub enum OutputSlot {
    /// No note: the engine is handed its padding note.
    Padding,
    /// A note of the request.
    Create(Note),
}

impl View for InputSlot {
    type V = Option<InputNoteModel>;

    open spec fn view(&self) -> Option<InputNoteModel> {
        match self {
            InputSlot::Padding => None,
            InputSlot::Spend(note) => Some(note@),
        }
    }
}

impl View for OutputSlot {
    type V = Option<NoteModel>;

    open spec fn view(&self) -> Option<NoteModel> {
        match self {
            OutputSlot::Padding => None,
            OutputSlot::Create(note) => Some(note@),
        }
    }
}

/// The request that the proof engine takes: exactly two places for notes to
/// spend and two for notes to create, the root of the tree, and the kind.
#[derive(Debug)]
pub struct TransferRequest {
    pub inputs: [InputSlot; 2],
    pub outputs: [OutputSlot; 2],
    pub root: Element,
    pub kind: TransactionKind,
}

/// The mathematical value of a [`TransferRequest`]; `None` stands for a
/// place that holds no note.
pub struct TransferModel {
    pub first_input: Option<InputNoteModel>,
    pub second_input: Option<InputNoteModel>,
    pub first_output: Option<NoteModel>,
    pub second_output: Option<NoteModel>,
    pub root: Seq<u8>,
    pub kind: TransactionKind,
}

impl View for TransferRequest {
    type V = TransferModel;

    open spec fn view(&self) -> TransferModel {
        TransferModel {
            first_input: self.inputs@[0]@,
            second_input: self.inputs@[1]@,
            first_output: self.outputs@[0]@,
            second_output: self.outputs@[1]@,
            root: self.root@,
            kind: self.kind,
        }
    }
}

/// A hex text of a transfer description.
#[derive(Clone, Copy, Debug, PartialEq, Eq, Structural)]
pub enum TransferField {
    SecretKey,
    MerkleRoot,
    /// A text of the note to spend at this place.
    Input(usize, NoteField),
    /// A text of the note to create at this place.
    Output(usize, NoteField),
}

/// A transfer description that cannot be turned into a request: the first
/// text that denotes no element, and why it denotes none.
#[derive(Clone, Copy, Debug, PartialEq, Eq)]
pub struct BuildError {
    pub field: TransferField,
    pub cause: DecodeError,
}

/// The name of a text of a transfer description.
pub open spec fn transfer_field_text(field: TransferField) -> Seq<char> {
    match field {
        TransferField::SecretKey => "secret_key"@,
        TransferField::MerkleRoot => "merkle_root"@,
        TransferField::Input(i, f) => "inputs["@ + decimal_text(i as nat) + "]."@ + note_field_text(
            f,
        ),
        TransferField::Output(i, f) => "outputs["@ + decimal_text(i as nat) + "]."@
            + note_field_text(f),
    }
}

/// The message for a text that denotes no element: the name of the text,
/// then what is wrong with it.
pub open spec fn build_error_text(err: BuildError) -> Seq<char> {
    transfer_field_text(err.field) + ": "@ + decode_error_text(err.cause)
}

impl TransferField {
    /// The name of the text.
    pub fn name(&self) -> (text: String)
        ensures
            text@ == transfer_field_text(*self),
    {
        match self {
            TransferField::SecretKey => "secret_key".to_string(),
            TransferField::MerkleRoot => "merkle_root".to_string(),
            TransferField::Input(i, f) => {
                let at = decimal(*i as u64);
                let field = f.name();
                "inputs[".to_string().concat(at.as_str()).concat("].").concat(field.as_str())
            },
            TransferField::Output(i, f) => {
                let at = decimal(*i as u64);
                let field = f.name();
                "outputs[".to_string().concat(at.as_str()).concat("].").concat(field.as_str())
            },
        }
    }
}

impl BuildError {
    /// A message that names the text and what is wrong with it.
    pub fn message(&self) -> (text: String)
        ensures
            text@ == build_error_text(*self),
    {
        let cause = self.cause.message();
        self.field.name().concat(": ").concat(cause.as_str())
    }
}

/// The kind that a text names, if it names one.
pub open spec fn named_kind(text: Seq<char>) -> Option<TransactionKind> {
    if text == "mint"@ {
        Some(TransactionKind::Mint)
    } else if text == "burn"@ {
        Some(TransactionKind::Burn)
    } else if text == "transfer"@ {
        Some(TransactionKind::Transfer)
    } else {
        None
    }
}

/// The text denotes the element zero.
pub open spec fn is_zero_value(text: Seq<char>) -> bool {
    decode_element(text) == Ok::<Seq<u8>, DecodeError>(zero_bytes())
}

/// Every note to create has the value zero.
pub open spec fn all_outputs_zero(outputs: Seq<OutputNoteRequest>) -> bool {
    forall|i: int| 0 <= i < outputs.len() ==> is_zero_value((#[trigger] outputs[i]).value@)
}

/// The kind of a transfer that names none: a mint where no note is spent,
/// else a burn where every note created has the value zero, else a
/// transfer.
pub open spec fn inferred_kind(
    inputs: Seq<InputNoteRequest>,
    outputs: Seq<OutputNoteRequest>,
) -> TransactionKind {
    if inputs.len() == 0 {
        TransactionKind::Mint
    } else if all_outputs_zero(outputs) {
        TransactionKind::Burn
    } else {
        TransactionKind::Transfer
    }
}

/// The kind of a transfer: the kind its description names, and the inferred
/// kind where it names none.
pub open spec fn kind_spec(req: ProveTransferRequest) -> TransactionKind {
    match req.kind {
        Some(text) => match named_kind(text@) {
            Some(kind) => kind,
            None => inferred_kind(req.inputs@, req.outputs@),
        },
        None => inferred_kind(req.inputs@, req.outputs@),
    }
}

/// What goes into the place `i` for notes to spend: the note number `i` of
/// the description, or nothing where it has no such note.
pub open spec fn input_slot_spec(inputs: Seq<InputNoteRequest>, i: int, secret_key: Seq<u8>) -> Result<
    Option<InputNoteModel>,
    BuildError,
> {
    if i < inputs.len() {
        match input_note_spec(inputs[i], secret_key) {
            Ok(note) => Ok(Some(note)),
            Err(e) => Err(
                BuildError { field: TransferField::Input(i as usize, e.field), cause: e.cause },
            ),
        }
    } else {
        Ok(None)
    }
}

/// What goes into the place `i` for notes to create.
pub open spec fn output_slot_spec(outputs: Seq<OutputNoteRequest>, i: int) -> Result<
    Option<NoteModel>,
    BuildError,
> {
    if i < outputs.len() {
        match output_note_spec(outputs[i]) {
            Ok(note) => Ok(Some(note)),
            Err(e) => Err(
                BuildError { field: TransferField::Output(i as usize, e.field), cause: e.cause },
            ),
        }
    } else {
        Ok(None)
    }
}

/// The request that a transfer description stands for.
///
/// The texts are read in the order secret key, root, notes to spend, notes
/// to create; the first that denotes no element is reported. Only the
/// first two notes of either list are read and used.
pub open spec fn build_spec(req: ProveTransferRequest) -> Result<TransferModel, BuildError> {
    match decode_element(req.secret_key@) {
        Err(cause) => Err(BuildError { field: TransferField::SecretKey, cause }),
        Ok(secret_key) => match decode_element(req.merkle_root@) {
            Err(cause) => Err(BuildError { field: TransferField::MerkleRoot, cause }),
            Ok(root) => match input_slot_spec(req.inputs@, 0, secret_key) {
                Err(e) => Err(e),
                Ok(first_input) => match input_slot_spec(req.inputs@, 1, secret_key) {
                    Err(e) => Err(e),
                    Ok(second_input) => match output_slot_spec(req.outputs@, 0) {
                        Err(e) => Err(e),
                        Ok(first_output) => match output_slot_spec(req.outputs@, 1) {
                            Err(e) => Err(e),
                            Ok(second_output) => Ok(
                                TransferModel {
                                    first_input,
                                    second_input,
                                    first_output,
                                    second_output,
                                    root,
                                    kind: kind_spec(req),
                                },
                            ),
                        },
                    },
                },
            },
        },
    }
}

/// The value of the result of building a request.
pub open spec fn build_result_view(r: Result<TransferRequest, BuildError>) -> Result<
    TransferModel,
    BuildError,
> {
    match r {
        Ok(request) => Ok(request@),
        Err(e) => Err(e),
    }
}

/// The kind that a text names, if it names one.
pub fn parse_kind(text: &str) -> (kind: Option<TransactionKind>)
    ensures
        kind == named_kind(text@),
{
    if str_eq(text, "mint") {
        Some(TransactionKind::Mint)
    } else if str_eq(text, "burn") {
        Some(TransactionKind::Burn)
    } else if str_eq(text, "transfer") {
        Some(TransactionKind::Transfer)
    } else {
        None
    }
}

/// Whether a text denotes the element zero.
pub fn value_is_zero(text: &str) -> (zero: bool)
    ensures
        zero == is_zero_value(text@),
{
    match hex_to_element(text) {
        Ok(e) => e.is_zero(),
        Err(_) => false,
    }
}

/// Infers the kind of a transfer from its notes.
pub fn infer_kind(inputs: &Vec<InputNoteRequest>, outputs: &Vec<OutputNoteRequest>) -> (kind:
    TransactionKind)
    ensures
        kind == inferred_kind(inputs@, outputs@),
{
    if inputs.len() == 0 {
        return TransactionKind::Mint;
    }
    let n: usize = outputs.len();
    let mut k: usize = 0;
    while k < n
        invariant
            n == outputs.len(),
            inputs.len() > 0,
            k <= n,
            forall|i: int| 0 <= i < k ==> is_zero_value((#[trigger] outputs@[i]).value@),
        decreases n - k,
    {
        if !value_is_zero(outputs[k].value.as_str()) {
            assert(!is_zero_value(outputs@[k as int].value@));
            return TransactionKind::Transfer;
        }
        k = k + 1;
    }
    TransactionKind::Burn
}

/// The kind of a transfer: the one it names, else the one its notes imply.
pub fn transaction_kind(req: &ProveTransferRequest) -> (kind: TransactionKind)
    ensures
        kind == kind_spec(*req),
{
    match &req.kind {
        Some(text) => match parse_kind(text.as_str()) {
            Some(kind) => kind,
            None => infer_kind(&req.inputs, &req.outputs),
        },
        None => infer_kind(&req.inputs, &req.outputs),
    }
}

fn input_slot(inputs: &Vec<InputNoteRequest>, i: usize, secret_key: Element) -> (r: Result<
    InputSlot,
    BuildError,
>)
    ensures
        match r {
            Ok(slot) => input_slot_spec(inputs@, i as int, secret_key@) == Ok::<
                Option<InputNoteModel>,
                BuildError,
            >(slot@),
            Err(e) => input_slot_spec(inputs@, i as int, secret_key@) == Err::<
                Option<InputNoteModel>,
                BuildError,
            >(e),
        },
{
    if i < inputs.len() {
        match parse_input_note(&inputs[i], secret_key) {
            Ok(note) => Ok(InputSlot::Spend(note)),
            Err(e) => Err(BuildError { field: TransferField::Input(i, e.field), cause: e.cause }),
        }
    } else {
        Ok(InputSlot::Padding)
    }
}

fn output_slot(outputs: &Vec<OutputNoteRequest>, i: usize) -> (r: Result<OutputSlot, BuildError>)
    ensures
        match r {
            Ok(slot) => output_slot_spec(outputs@, i as int) == Ok::<Option<NoteModel>, BuildError>(
                slot@,
            ),
            Err(e) => output_slot_spec(outputs@, i as int) == Err::<Option<NoteModel>, BuildError>(
                e,
            ),
        },
{
    if i < outputs.len() {
        match parse_output_note(&outputs[i]) {
            Ok(note) => Ok(OutputSlot::Create(note)),
            Err(e) => Err(BuildError { field: TransferField::Output(i, e.field), cause: e.cause }),
        }
    } else {
        Ok(OutputSlot::Padding)
    }
}

/// Builds the request for the proof engine from a transfer description.
pub fn build_transfer_request(req: &ProveTransferRequest) -> (r: Result<
    TransferRequest,
    BuildError,
>)
    ensures
        build_result_view(r) == build_spec(*req),
{
    let secret_key = match hex_to_element(req.secret_key.as_str()) {
        Ok(e) => e,
        Err(cause) => {
            return Err(BuildError { field: TransferField::SecretKey, cause });
        },
    };
    let root = match hex_to_element(req.merkle_root.as_str()) {
        Ok(e) => e,
        Err(cause) => {
            return Err(BuildError { field: TransferField::MerkleRoot, cause });
        },
    };
    let first_input = match input_slot(&req.inputs, 0, secret_key) {
        Ok(slot) => slot,
        Err(e) => {
            return Err(e);
        },
    };
    let second_input = match input_slot(&req.inputs, 1, secret_key) {
        Ok(slot) => slot,
        Err(e) => {
            return Err(e);
        },
    };
    let first_output = match output_slot(&req.outputs, 0) {
        Ok(slot) => slot,
        Err(e) => {
            return Err(e);
        },
    };
    let second_output = match output_slot(&req.outputs, 1) {
        Ok(slot) => slot,
        Err(e) => {
            return Err(e);
        },
    };
    let kind = transaction_kind(req);
    Ok(
        TransferRequest {
            inputs: [first_input, second_input],
            outputs: [first_output, second_output],
            root,
            kind,
        },
    )
}

/// Some note to create has a value that is not zero.
pub open spec fn some_output_nonzero(outputs: Seq<OutputNoteRequest>) -> bool {
    exists|i: int| 0 <= i < outputs.len() && !is_zero_value((#[trigger] outputs[i]).value@)
}

/// How the kind of a transfer is inferred: with no note to spend and a note
/// to create whose value is not zero it is a mint; with a note to spend and
/// all notes to create of value zero it is a burn; with a note to spend and
/// a note to create whose value is not zero it is a transfer.
pub proof fn lemma_inferred_kind(inputs: Seq<InputNoteRequest>, outputs: Seq<OutputNoteRequest>)
    requires
        inputs.len() > 0 || some_output_nonzero(outputs),
    ensures
        inputs.len() == 0 && some_output_nonzero(outputs) ==> inferred_kind(inputs, outputs)
            == TransactionKind::Mint,
        inputs.len() >= 1 && all_outputs_zero(outputs) ==> inferred_kind(inputs, outputs)
            == TransactionKind::Burn,
        !(inputs.len() == 0 && some_output_nonzero(outputs)) && !(inputs.len() >= 1
            && all_outputs_zero(outputs)) ==> inferred_kind(inputs, outputs)
            == TransactionKind::Transfer,
{
}

/// A kind that the description names is the kind of the transfer, whatever
/// its notes imply.
pub proof fn lemma_named_kind_overrides(req: ProveTransferRequest)
    requires
        req.kind is Some,
        named_kind(req.kind->Some_0@) is Some,
    ensures
        kind_spec(req) == named_kind(req.kind->Some_0@)->Some_0,
{
}

/// A description that names no kind has the kind that its notes imply.
pub proof fn lemma_unnamed_kind_is_inferred(req: ProveTransferRequest)
    requires
        req.kind is None || named_kind(req.kind->Some_0@) is None,
    ensures
        kind_spec(req) == inferred_kind(req.inputs@, req.outputs@),
{
}

/// Notes beyond the second of either list do not reach the request: two
/// descriptions that agree on the keys, on the kind and on the first two
/// notes of each list stand for the same places.
pub proof fn lemma_only_two_notes_used(a: ProveTransferRequest, b: ProveTransferRequest)
    requires
        a.secret_key@ == b.secret_key@,
        a.merkle_root@ == b.merkle_root@,
        a.inputs@.len() >= 2,
        b.inputs@.len() >= 2,
        a.outputs@.len() >= 2,
        b.outputs@.len() >= 2,
        a.inputs@[0] == b.inputs@[0],
        a.inputs@[1] == b.inputs@[1],
        a.outputs@[0] == b.outputs@[0],
        a.outputs@[1] == b.outputs@[1],
    ensures
        build_spec(a) is Ok <==> build_spec(b) is Ok,
        build_spec(a) is Err ==> build_spec(a) == build_spec(b),
        build_spec(a) is Ok ==> {
            let x = build_spec(a)->Ok_0;
            let y = build_spec(b)->Ok_0;
            &&& x.first_input == y.first_input
            &&& x.second_input == y.second_input
            &&& x.first_output == y.first_output
            &&& x.second_output == y.second_output
            &&& x.root == y.root
        },
{
}

} // verus!
