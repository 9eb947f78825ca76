//! Notes, the value-carrying records of the proving system, and how they are
//! read from the hex texts of a request.

use vstd::prelude::*;
use vstd::string::*;
use crate::codec::decode_element;
use crate::codec::hex_to_element;
use crate::codec::DecodeError;
use crate::element::Element;
use crate::text::decimal;
use crate::text::decimal_text;

verus! {

/// A note: an owner address, randomness, a value, a token and a source
/// address.
#[derive(Clone, Debug)]
pub struct Note {
    pub address: Element,
    pub psi: Element,
    pub value: Element,
    pub token: String,
    pub source: Element,
}

/// The mathematical value of a [`Note`].
pub struct NoteModel {
    pub address: Seq<u8>,
    pub psi: Seq<u8>,
    pub value: Seq<u8>,
    pub token: Seq<char>,
    pub source: Seq<u8>,
}

impl View for Note {
    type V = NoteModel;

    open spec fn view(&self) -> NoteModel {
        NoteModel {
            address: self.address@,
            psi: self.psi@,
            value: self.value@,
            token: self.token@,
            source: self.source@,
        }
    }
}

/// A note to spend: the note, the key that spends it, and the siblings on
/// the path from its commitment to the root of the tree.
#[derive(Clone, Debug)]
pub struct InputNote {
    pub note: Note,
    pub secret_key: Element,
    pub merkle_path: Vec<Element>,
}

/// The mathematical value of an [`InputNote`].
pub struct InputNoteModel {
    pub note: NoteModel,
    pub secret_key: Seq<u8>,
    pub merkle_path: Seq<Seq<u8>>,
}

/// The values of a sequence of elements.
pub open spec fn element_views(elements: Seq<Element>) -> Seq<Seq<u8>> {
    elements.map_values(|e: Element| e@)
}

/// The characters of each of a sequence of strings.
pub open spec fn texts(strings: Seq<String>) -> Seq<Seq<char>> {
    strings.map_values(|s: String| s@)
}

impl View for InputNote {
    type V = InputNoteModel;

    open spec fn view(&self) -> InputNoteModel {
        InputNoteModel {
            note: self.note@,
            secret_key: self.secret_key@,
            merkle_path: element_views(self.merkle_path@),
        }
    }
}

/// A note to spend, as a request describes it: every element as hex text.
#[derive(Debug)]
pub struct InputNoteRequest {
    /// Address of the owner.
    pub address: String,
    /// Randomness of the note.
    pub psi: String,
    /// Value in smallest units.
    pub value: String,
    /// Token identifier.
    pub token: String,
    /// Source address.
    pub source: String,
    /// Siblings on the merkle path of the note.
    pub merkle_path: Vec<String>,
}

/// A note to create, as a request describes it: every element as hex text.
#[derive(Debug)]
pub struct OutputNoteRequest {
    /// Address of the recipient.
    pub address: String,
    /// Randomness of the note.
    pub psi: String,
    /// Value in smallest units.
    pub value: String,
    /// Token identifier.
    pub token: String,
    /// Source address.
    pub source: String,
}

/// A hex text of a note description.
#[derive(Clone, Copy, Debug, PartialEq, Eq, Structural)]
pub enum NoteField {
    Address,
    Psi,
    Value,
    Source,
    /// The sibling at this place of the merkle path.
    Sibling(usize),
}

/// A note description that cannot be read: the first text that denotes no
/// element, and why it denotes none.
#[derive(Clone, Copy, Debug, PartialEq, Eq)]
pub struct NoteError {
    pub field: NoteField,
    pub cause: DecodeError,
}

/// The name of a text of a note description.
pub open spec fn note_field_text(field: NoteField) -> Seq<char> {
    match field {
        NoteField::Address => "address"@,
        NoteField::Psi => "psi"@,
        NoteField::Value => "value"@,
        NoteField::Source => "source"@,
        NoteField::Sibling(k) => "merkle_path["@ + decimal_text(k as nat) + "]"@,
    }
}

impl NoteField {
    /// The name of the text.
    pub fn name(&self) -> (text: String)
        ensures
            text@ == note_field_text(*self),
    {
        match self {
            NoteField::Address => "address".to_string(),
            NoteField::Psi => "psi".to_string(),
            NoteField::Value => "value".to_string(),
            NoteField::Source => "source".to_string(),
            NoteField::Sibling(k) => {
                let at = decimal(*k as u64);
                "merkle_path[".to_string().concat(at.as_str()).concat("]")
            },
        }
    }
}

/// The note that five texts describe. The texts are read in the order
/// address, psi, value, source; the first that denotes no element is
/// reported.
pub open spec fn note_spec(
    address: Seq<char>,
    psi: Seq<char>,
    value: Seq<char>,
    token: Seq<char>,
    source: Seq<char>,
) -> Result<NoteModel, NoteError> {
    match decode_element(address) {
        Err(cause) => Err(NoteError { field: NoteField::Address, cause }),
        Ok(address) => match decode_element(psi) {
            Err(cause) => Err(NoteError { field: NoteField::Psi, cause }),
            Ok(psi) => match decode_element(value) {
                Err(cause) => Err(NoteError { field: NoteField::Value, cause }),
                Ok(value) => match decode_element(source) {
                    Err(cause) => Err(NoteError { field: NoteField::Source, cause }),
                    Ok(source) => Ok(NoteModel { address, psi, value, token, source }),
                },
            },
        },
    }
}

/// The siblings that a path of hex texts describes; the first text that
/// denotes no element is reported with its place.
pub open spec fn siblings_spec(path: Seq<Seq<char>>) -> Result<Seq<Seq<u8>>, NoteError>
    decreases path.len(),
{
    if path.len() == 0 {
        Ok(Seq::empty())
    } else {
        match siblings_spec(path.drop_last()) {
            Err(e) => Err(e),
            Ok(front) => match decode_element(path.last()) {
                Err(cause) => Err(
                    NoteError { field: NoteField::Sibling((path.len() - 1) as usize), cause },
                ),
                Ok(sibling) => Ok(front.push(sibling)),
            },
        }
    }
}

/// The note to spend that a request describes, with the key that spends it.
/// The note is read before the path.
pub open spec fn input_note_spec(input: InputNoteRequest, secret_key: Seq<u8>) -> Result<
    InputNoteModel,
    NoteError,
> {
    match note_spec(input.address@, input.psi@, input.value@, input.token@, input.source@) {
        Err(e) => Err(e),
        Ok(note) => match siblings_spec(texts(input.merkle_path@)) {
            Err(e) => Err(e),
            Ok(merkle_path) => Ok(InputNoteModel { note, secret_key, merkle_path }),
        },
    }
}

/// The note to create that a request describes.
pub open spec fn output_note_spec(output: OutputNoteRequest) -> Result<NoteModel, NoteError> {
    note_spec(output.address@, output.psi@, output.value@, output.token@, output.source@)
}

/// The value of the result of reading a note.
pub open spec fn note_result_view(r: Result<Note, NoteError>) -> Result<NoteModel, NoteError> {
    match r {
        Ok(note) => Ok(note@),
        Err(e) => Err(e),
    }
}

/// The value of the result of reading a note to spend.
pub open spec fn input_note_result_view(r: Result<InputNote, NoteError>) -> Result<
    InputNoteModel,
    NoteError,
> {
    match r {
        Ok(note) => Ok(note@),
        Err(e) => Err(e),
    }
}

/// Reads a note from its five texts.
pub fn parse_note(address: &str, psi: &str, value: &str, token: &str, source: &str) -> (r: Result<
    Note,
    NoteError,
>)
    ensures
        note_result_view(r) == note_spec(address@, psi@, value@, token@, source@),
{
    let address = match hex_to_element(address) {
        Ok(e) => e,
        Err(cause) => {
            return Err(NoteError { field: NoteField::Address, cause });
        },
    };
    let psi = match hex_to_element(psi) {
        Ok(e) => e,
        Err(cause) => {
            return Err(NoteError { field: NoteField::Psi, cause });
        },
    };
    let value = match hex_to_element(value) {
        Ok(e) => e,
        Err(cause) => {
            return Err(NoteError { field: NoteField::Value, cause });
        },
    };
    let source = match hex_to_element(source) {
        Ok(e) => e,
        Err(cause) => {
            return Err(NoteError { field: NoteField::Source, cause });
        },
    };
    Ok(Note { address, psi, value, token: token.to_string(), source })
}

/// Reads the siblings of a merkle path from their hex texts.
pub fn parse_siblings(path: &Vec<String>) -> (r: Result<Vec<Element>, NoteError>)
    ensures
        match r {
            Ok(siblings) => siblings_spec(texts(path@)) == Ok::<Seq<Seq<u8>>, NoteError>(
                element_views(siblings@),
            ),
            Err(e) => siblings_spec(texts(path@)) == Err::<Seq<Seq<u8>>, NoteError>(e),
        },
{
    let ghost all = texts(path@);
    let n: usize = path.len();
    let mut siblings: Vec<Element> = Vec::new();
    let mut k: usize = 0;
    proof {
        assert(all.take(0) =~= Seq::<Seq<char>>::empty());
        assert(element_views(siblings@) =~= Seq::<Seq<u8>>::empty());
    }
    while k < n
        invariant
            n == path.len(),
            all == texts(path@),
            k <= n,
            siblings_spec(all.take(k as int)) == Ok::<Seq<Seq<u8>>, NoteError>(
                element_views(siblings@),
            ),
        decreases n - k,
    {
        proof {
            assert(all.take(k + 1).drop_last() =~= all.take(k as int));
            assert(all.take(k + 1).last() == path@[k as int]@);
        }
        match hex_to_element(path[k].as_str()) {
            Err(cause) => {
                proof {
                    lemma_siblings_failure(all, k + 1);
                }
                return Err(NoteError { field: NoteField::Sibling(k), cause });
            },
            Ok(sibling) => {
                proof {
                    assert(element_views(siblings@.push(sibling)) =~= element_views(siblings@).push(
                        sibling@,
                    ));
                }
                siblings.push(sibling);
            },
        }
        k = k + 1;
    }
    proof {
        assert(all.take(n as int) =~= all);
    }
    Ok(siblings)
}

/// A path whose beginning cannot be read cannot be read, and the fault
/// reported is that of the beginning.
proof fn lemma_siblings_failure(path: Seq<Seq<char>>, k: int)
    requires
        0 <= k <= path.len(),
        siblings_spec(path.take(k)) is Err,
    ensures
        siblings_spec(path) == siblings_spec(path.take(k)),
    decreases path.len(),
{
    if k < path.len() {
        assert(path.drop_last().take(k) =~= path.take(k));
        lemma_siblings_failure(path.drop_last(), k);
    } else {
        assert(path.take(k) =~= path);
    }
}

/// Reads a note to spend from a request, with the key that spends it.
pub fn parse_input_note(input: &InputNoteRequest, secret_key: Element) -> (r: Result<
    InputNote,
    NoteError,
>)
    ensures
        input_note_result_view(r) == input_note_spec(*input, secret_key@),
{
    let note = match parse_note(
        input.address.as_str(),
        input.psi.as_str(),
        input.value.as_str(),
        input.token.as_str(),
        input.source.as_str(),
    ) {
        Ok(note) => note,
        Err(e) => {
            return Err(e);
        },
    };
    let merkle_path = match parse_siblings(&input.merkle_path) {
        Ok(siblings) => siblings,
        Err(e) => {
            return Err(e);
        },
    };
    Ok(InputNote { note, secret_key, merkle_path })
}

/// Reads a note to create from a request.
pub fn parse_output_note(output: &OutputNoteRequest) -> (r: Result<Note, NoteError>)
    ensures
        note_result_view(r) == output_note_spec(*output),
{
    parse_note(
        output.address.as_str(),
        output.psi.as_str(),
        output.value.as_str(),
        output.token.as_str(),
        output.source.as_str(),
    )
}

} // verus!
