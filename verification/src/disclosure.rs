//! Disclosures: the openings of the commitments of a credential, and the
//! text that carries them. A disclosure travels as the base64 of the JSON
//! array `[blinding, name, value]`, the blinding factor itself in base64;
//! several of them travel joined by `~`.

use crate::base64url::{base64url_bytes, base64url_text, engine_decode, engine_encode};
use crate::bytes::{append, take32};
use crate::claims::{claim_scalar, encode_value};
use crate::error::Error;
use crate::json::{json_triple, json_triple_text, value_read_triple, value_write_triple};
use crate::scalar::{group_order, le_value, Scalar};
use vstd::prelude::*;
use vstd::utf8::encode_utf8;

verus! {

/// The byte that stands between two disclosures: `~`.
pub const SEPARATOR: u8 = 126;

/// The opening of one commitment: the blinding factor, the name of the
/// attribute and its value as JSON text.
#[derive(Clone, Debug, PartialEq, Eq)]
pub struct Disclosure {
    /// The blinding factor of the commitment.
    pub blinding: Scalar,
    /// The name of the attribute.
    pub name: String,
    /// The value of the attribute, as JSON text.
    pub value: String,
}

impl View for Disclosure {
    type V = (nat, Seq<char>, Seq<char>);

    open spec fn view(&self) -> (nat, Seq<char>, Seq<char>) {
        (self.blinding@, self.name@, self.value@)
    }
}

/// What a piece of transported text discloses, if it can be read: the text
/// is base64 of a JSON array of two strings and a value, and the first
/// string is base64 of 32 bytes, which are reduced to the blinding factor.
pub open spec fn disclosure_of(segment: Seq<u8>) -> Option<(nat, Seq<char>, Seq<char>)> {
    match base64url_bytes(segment) {
        Some(document) => match json_triple(document) {
            Some((blinding, name, value)) => match base64url_bytes(encode_utf8(blinding)) {
                Some(bytes) => if bytes.len() == 32 {
                    Some((le_value(bytes) % group_order(), name, value))
                } else {
                    None
                },
                None => None,
            },
            None => None,
        },
        None => None,
    }
}

/// The text that carries a disclosure, if its value is a JSON value.
pub open spec fn disclosure_text(blinding: Seq<u8>, name: Seq<char>, value: Seq<char>) -> Option<
    Seq<char>,
> {
    match json_triple_text(base64url_text(blinding), name, value) {
        Some(document) => Some(base64url_text(encode_utf8(document))),
        None => None,
    }
}

/// The pieces that a text falls into at each separator. A text without
/// separator is one piece, and so is the empty text.
pub open spec fn segments(text: Seq<u8>) -> Seq<Seq<u8>>
    decreases text.len(),
{
    if text.len() == 0 {
        seq![Seq::<u8>::empty()]
    } else {
        let before = segments(text.drop_last());
        if text.last() == SEPARATOR {
            before.push(Seq::<u8>::empty())
        } else {
            before.drop_last().push(before.last().push(text.last()))
        }
    }
}

/// The pieces joined again, a separator between each two.
pub open spec fn joined(pieces: Seq<Seq<u8>>) -> Seq<u8>
    decreases pieces.len(),
{
    if pieces.len() == 0 {
        Seq::<u8>::empty()
    } else if pieces.len() == 1 {
        pieces[0]
    } else {
        joined(pieces.drop_last()) + seq![SEPARATOR] + pieces.last()
    }
}

/// The byte strings that a sequence of vectors holds.
pub open spec fn contents(pieces: Seq<Vec<u8>>) -> Seq<Seq<u8>> {
    Seq::new(pieces.len(), |i: int| pieces[i]@)
}

/// The pieces of a text are at least one, none holds a separator, and
/// joined they are the text.
pub proof fn lemma_segments(text: Seq<u8>)
    ensures
        segments(text).len() >= 1,
        forall|i: int, j: int|
            0 <= i < segments(text).len() && 0 <= j < segments(text)[i].len() ==> segments(
                text,
            )[i][j] != SEPARATOR,
        joined(segments(text)) == text,
    decreases text.len(),
{
    if text.len() == 0 {
        assert(joined(segments(text)) =~= text);
    } else {
        let shorter = text.drop_last();
        lemma_segments(shorter);
        let before = segments(shorter);
        let all = segments(text);
        if text.last() == SEPARATOR {
            assert(all.drop_last() =~= before);
            assert(joined(all) =~= joined(before) + seq![SEPARATOR] + Seq::<u8>::empty());
            assert(joined(all) =~= text);
        } else {
            let grown = before.last().push(text.last());
            assert(all.last() == grown);
            if before.len() == 1 {
                assert(joined(before) == before[0]);
                assert(joined(all) =~= text);
            } else {
                assert(all.drop_last() =~= before.drop_last());
                assert(joined(before) == joined(before.drop_last()) + seq![SEPARATOR]
                    + before.last());
                assert(joined(all) =~= joined(before).push(text.last()));
                assert(joined(all) =~= text);
            }
        }
    }
}

/// Cuts a text at each separator.
pub fn split(text: &[u8]) -> (r: Vec<Vec<u8>>)
    ensures
        contents(r@) == segments(text@),
{
    let mut done: Vec<Vec<u8>> = Vec::new();
    let mut current: Vec<u8> = Vec::new();
    let mut i: usize = 0;
    assert(text@.subrange(0, 0) =~= Seq::<u8>::empty());
    assert(contents(done@).push(current@) =~= segments(text@.subrange(0, 0)));
    while i < text.len()
        invariant
            i <= text.len(),
            contents(done@).push(current@) == segments(text@.subrange(0, i as int)),
        decreases text.len() - i,
    {
        let ghost before = contents(done@).push(current@);
        let ghost prefix = text@.subrange(0, i + 1);
        assert(prefix.drop_last() =~= text@.subrange(0, i as int));
        assert(prefix.last() == text@[i as int]);
        let byte = text[i];
        if byte == SEPARATOR {
            done.push(current);
            current = Vec::new();
            assert(contents(done@) =~= before);
        } else {
            current.push(byte);
            assert(before.drop_last() =~= contents(done@));
        }
        assert(contents(done@).push(current@) =~= segments(prefix));
        i += 1;
    }
    assert(text@.subrange(0, i as int) =~= text@);
    let ghost before = contents(done@).push(current@);
    done.push(current);
    assert(contents(done@) =~= before);
    done
}

impl Disclosure {
    /// The disclosure that a piece of transported text carries.
    pub fn decode(segment: &[u8]) -> (r: Result<Disclosure, Error>)
        ensures
            r is Ok <==> disclosure_of(segment@) is Some,
            r is Ok ==> r->Ok_0@ == disclosure_of(segment@)->Some_0,
            r is Err ==> r->Err_0 == Error::MalformedDisclosures,
    {
        let document = match engine_decode(segment) {
            Some(document) => document,
            None => {
                return Err(Error::MalformedDisclosures);
            },
        };
        let (blinding_text, name, value) = match value_read_triple(document.as_slice()) {
            Some(parts) => parts,
            None => {
                return Err(Error::MalformedDisclosures);
            },
        };
        let blinding_bytes = match engine_decode(blinding_text.as_str().as_bytes()) {
            Some(bytes) => bytes,
            None => {
                return Err(Error::MalformedDisclosures);
            },
        };
        if blinding_bytes.len() != 32 {
            return Err(Error::MalformedDisclosures);
        }
        let array = take32(blinding_bytes.as_slice(), 0);
        assert(array@ =~= blinding_bytes@);
        let blinding = Scalar::from_bytes_mod_order(array);
        Ok(Disclosure { blinding, name, value })
    }

    /// The text that carries the disclosure. There is none if the value is
    /// no JSON value.
    pub fn encode(&self) -> (r: Result<String, Error>)
        ensures
            r is Ok <==> disclosure_text(self.blinding.encoding(), self.name@, self.value@) is Some,
            r is Ok ==> r->Ok_0@ == disclosure_text(
                self.blinding.encoding(),
                self.name@,
                self.value@,
            )->Some_0,
            r is Err ==> r->Err_0 == Error::MalformedDisclosures,
    {
        let blinding = self.blinding.to_bytes();
        let blinding_text = engine_encode(blinding.as_slice());
        match value_write_triple(blinding_text.as_str(), self.name.as_str(), self.value.as_str()) {
            Some(document) => Ok(engine_encode(document.as_str().as_bytes())),
            None => Err(Error::MalformedDisclosures),
        }
    }

    /// The scalar that the disclosed value stands for.
    pub fn scalar(&self) -> (r: Result<Scalar, Error>)
        ensures
            r is Ok <==> claim_scalar(self.value@) is Some,
            r is Ok ==> r->Ok_0@ == claim_scalar(self.value@)->Some_0 && r->Ok_0.wf(),
            r is Err ==> r->Err_0 == Error::MalformedDisclosures,
    {
        encode_value(self.value.as_str())
    }
}

/// The disclosure of a claim under a blinding factor, and the scalar that
/// the commitment holds for the claim.
pub fn encode_claim_with(name: &str, value: &str, blinding: Scalar) -> (r: Result<
    (Scalar, Disclosure),
    Error,
>)
    ensures
        r is Ok <==> claim_scalar(value@) is Some,
        r is Ok ==> r->Ok_0.0@ == claim_scalar(value@)->Some_0 && r->Ok_0.0.wf() && r->Ok_0.1@ == (
            blinding@,
            name@,
            value@,
        ),
        r is Err ==> r->Err_0 == Error::MalformedDisclosures,
{
    match encode_value(value) {
        Ok(scalar) => Ok(
            (scalar, Disclosure { blinding, name: name.to_owned(), value: value.to_owned() }),
        ),
        Err(e) => Err(e),
    }
}

/// The disclosure of a claim under a blinding factor that is drawn for it,
/// and the scalar that the commitment holds for the claim.
pub fn encode_claim(name: &str, value: &str) -> (r: Result<(Scalar, Disclosure), Error>)
    ensures
        r is Ok <==> claim_scalar(value@) is Some,
        r is Ok ==> r->Ok_0.0@ == claim_scalar(value@)->Some_0 && r->Ok_0.0.wf() && r->Ok_0.1.name@
            == name@ && r->Ok_0.1.value@ == value@,
        r is Err ==> r->Err_0 == Error::MalformedDisclosures,
{
    encode_claim_with(name, value, Scalar::random())
}

/// Cuts a text at its first separator: what stands before it, and what
/// stands after it. A text without separator is not cut.
pub fn split_once(text: &[u8]) -> (r: Option<(Vec<u8>, Vec<u8>)>)
    ensures
        r is None <==> !text@.contains(SEPARATOR),
        r is Some ==> r->Some_0.0@ + seq![SEPARATOR] + r->Some_0.1@ == text@
            && !r->Some_0.0@.contains(SEPARATOR),
{
    let mut head: Vec<u8> = Vec::new();
    let mut i: usize = 0;
    while i < text.len()
        invariant
            i <= text.len(),
            head@ == text@.subrange(0, i as int),
            !head@.contains(SEPARATOR),
        decreases text.len() - i,
    {
        if text[i] == SEPARATOR {
            let mut tail: Vec<u8> = Vec::new();
            let rest = vstd::slice::slice_subrange(text, i + 1, text.len());
            append(&mut tail, rest);
            assert(head@ + seq![SEPARATOR] + tail@ =~= text@);
            assert(text@[i as int] == SEPARATOR);
            return Some((head, tail));
        }
        let ghost before = head@;
        head.push(text[i]);
        assert(head@ =~= text@.subrange(0, i + 1));
        assert forall|j: int| 0 <= j < head@.len() implies head@[j] != SEPARATOR by {
            if j < before.len() {
                assert(before[j] == head@[j]);
                assert(before.contains(before[j]));
            }
        }
        i += 1;
    }
    assert(text@.subrange(0, i as int) =~= text@);
    None
}

/// A text, a separator and a second text, one after the other.
pub fn attach(head: &[u8], tail: &[u8]) -> (r: Vec<u8>)
    ensures
        r@ == head@ + seq![SEPARATOR] + tail@,
{
    let mut out: Vec<u8> = Vec::new();
    append(&mut out, head);
    out.push(SEPARATOR);
    append(&mut out, tail);
    out
}

/// Joins pieces of text, a separator between each two.
pub fn join(pieces: &Vec<Vec<u8>>) -> (r: Vec<u8>)
    ensures
        r@ == joined(contents(pieces@)),
{
    let mut out: Vec<u8> = Vec::new();
    let mut i: usize = 0;
    assert(contents(pieces@).subrange(0, 0) =~= Seq::<Seq<u8>>::empty());
    while i < pieces.len()
        invariant
            i <= pieces.len(),
            out@ == joined(contents(pieces@).subrange(0, i as int)),
        decreases pieces.len() - i,
    {
        let ghost before = contents(pieces@).subrange(0, i as int);
        let ghost now = contents(pieces@).subrange(0, i + 1);
        assert(now.drop_last() =~= before);
        assert(now.last() == pieces@[i as int]@);
        if i > 0 {
            out.push(SEPARATOR);
            assert(out@ =~= joined(before) + seq![SEPARATOR]);
        } else {
            assert(Seq::<u8>::empty() + pieces@[i as int]@ =~= pieces@[i as int]@);
        }
        append(&mut out, pieces[i].as_slice());
        i += 1;
    }
    assert(contents(pieces@).subrange(0, i as int) =~= contents(pieces@));
    out
}

/// No two disclosures are of one name.
pub open spec fn names_distinct(entries: Seq<Disclosure>) -> bool {
    forall|i: int, j: int| 0 <= i < j < entries.len() ==> entries[i].name@ != entries[j].name@
}

/// Some disclosure is of the name.
pub open spec fn names(entries: Seq<Disclosure>, name: Seq<char>) -> bool {
    exists|i: int| 0 <= i < entries.len() && #[trigger] entries[i].name@ == name
}

/// The disclosure of a name among the disclosures of a credential: the one
/// entry of that name.
pub open spec fn disclosed(entries: Seq<Disclosure>, name: Seq<char>) -> Disclosure {
    entries[choose|i: int| 0 <= i < entries.len() && #[trigger] entries[i].name@ == name]
}

/// What each piece of a transported text discloses.
pub open spec fn disclosures_of(pieces: Seq<Seq<u8>>) -> Seq<Option<(nat, Seq<char>, Seq<char>)>> {
    Seq::new(pieces.len(), |i: int| disclosure_of(pieces[i]))
}

/// A transported text can be read as a set of disclosures: each of its
/// pieces can be read, and no two are of one name.
pub open spec fn is_disclosure_set(text: Seq<u8>) -> bool {
    let read = disclosures_of(segments(text));
    &&& forall|i: int| 0 <= i < read.len() ==> (#[trigger] read[i]) is Some
    &&& forall|i: int, j: int|
        0 <= i < j < read.len() ==> (#[trigger] read[i])->Some_0.1 != (#[trigger] read[j])->Some_0.1
}

/// The disclosures that a holder has of one credential, at most one for each
/// name.
#[derive(Debug, PartialEq, Eq)]
pub struct DisclosureSet {
    entries: Vec<Disclosure>,
}

impl View for DisclosureSet {
    type V = Map<Seq<char>, (nat, Seq<char>)>;

    /// The blinding factor and the value that are disclosed for each name.
    closed spec fn view(&self) -> Map<Seq<char>, (nat, Seq<char>)> {
        Map::new(
            |name: Seq<char>| names(self.entries@, name),
            |name: Seq<char>|
                {
                    let i = choose|i: int|
                        0 <= i < self.entries@.len() && #[trigger] self.entries@[i].name@ == name;
                    (self.entries@[i].blinding@, self.entries@[i].value@)
                },
        )
    }
}

impl DisclosureSet {
    /// No two disclosures are of one name.
    #[verifier::type_invariant]
    pub closed spec fn wf(&self) -> bool {
        names_distinct(self.entries@)
    }

    /// The disclosures, in the order in which they came.
    pub closed spec fn entries(&self) -> Seq<Disclosure> {
        self.entries@
    }

    /// How the mapping follows from the disclosures.
    pub proof fn lemma_view(&self)
        requires
            self.wf(),
        ensures
            names_distinct(self.entries()),
            forall|name: Seq<char>| self@.dom().contains(name) == names(self.entries(), name),
            forall|i: int|
                0 <= i < self.entries().len() ==> self@.dom().contains(
                    #[trigger] self.entries()[i].name@,
                ) && self@[self.entries()[i].name@] == (
                    self.entries()[i].blinding@,
                    self.entries()[i].value@,
                ),
    {
        assert forall|i: int| 0 <= i < self.entries().len() implies self@.dom().contains(
            #[trigger] self.entries()[i].name@,
        ) && self@[self.entries()[i].name@] == (
            self.entries()[i].blinding@,
            self.entries()[i].value@,
        ) by {
            let name = self.entries()[i].name@;
            assert(names(self.entries@, name));
            let k = choose|k: int|
                0 <= k < self.entries@.len() && #[trigger] self.entries@[k].name@ == name;
            assert(k == i);
        }
    }

    /// An entry of a name is the one that the set holds of that name.
    pub proof fn lemma_disclosed(&self, name: Seq<char>, entry: Disclosure)
        requires
            self.wf(),
            self.entries().contains(entry),
            entry.name@ == name,
        ensures
            disclosed(self.entries(), name) == entry,
    {
        let i = choose|i: int| 0 <= i < self.entries().len() && self.entries()[i] == entry;
        let k = choose|k: int|
            0 <= k < self.entries().len() && #[trigger] self.entries()[k].name@ == name;
        assert(self.entries()[i].name@ == name);
        assert(k == i);
    }

    /// The set without any disclosure.
    pub fn new() -> (r: DisclosureSet)
        ensures
            r.entries().len() == 0,
            r.wf(),
    {
        DisclosureSet { entries: Vec::new() }
    }

    /// The number of disclosures.
    pub fn len(&self) -> (r: usize)
        ensures
            r == self.entries().len(),
    {
        self.entries.len()
    }

    /// The disclosure at a position, if the set holds that many.
    pub fn entry(&self, i: usize) -> (r: Option<&Disclosure>)
        ensures
            r is Some <==> i < self.entries().len(),
            r is Some ==> *r->Some_0 == self.entries()[i as int],
    {
        if i < self.entries.len() {
            Some(&self.entries[i])
        } else {
            None
        }
    }

    /// The disclosure of a name, if the set holds one.
    pub fn get(&self, name: &str) -> (r: Option<&Disclosure>)
        ensures
            r is Some <==> self@.dom().contains(name@),
            r is Some <==> names(self.entries(), name@),
            r is Some ==> r->Some_0.name@ == name@ && self@[name@] == (
                r->Some_0.blinding@,
                r->Some_0.value@,
            ) && self.entries().contains(*r->Some_0),
    {
        proof {
            use_type_invariant(self);
            self.lemma_view();
        }
        let wanted = name.to_owned();
        let mut i: usize = 0;
        while i < self.entries.len()
            invariant
                i <= self.entries.len(),
                wanted@ == name@,
                forall|j: int| 0 <= j < i ==> self.entries@[j].name@ != name@,
            decreases self.entries.len() - i,
        {
            if self.entries[i].name == wanted {
                proof {
                    use_type_invariant(self);
                    self.lemma_view();
                    assert(self.entries()[i as int].name@ == name@);
                }
                return Some(&self.entries[i]);
            }
            i += 1;
        }
        None
    }

    /// The set with one more disclosure, unless the set holds one of its
    /// name.
    pub fn with(self, disclosure: Disclosure) -> (r: Result<DisclosureSet, Error>)
        ensures
            r is Ok <==> !names(self.entries(), disclosure.name@),
            r is Ok ==> r->Ok_0.entries() == self.entries().push(disclosure) && r->Ok_0.wf(),
            r is Err ==> r->Err_0 == Error::MalformedDisclosures,
    {
        proof {
            use_type_invariant(&self);
        }
        let mut i: usize = 0;
        while i < self.entries.len()
            invariant
                i <= self.entries.len(),
                forall|j: int| 0 <= j < i ==> self.entries@[j].name@ != disclosure.name@,
            decreases self.entries.len() - i,
        {
            if self.entries[i].name == disclosure.name {
                return Err(Error::MalformedDisclosures);
            }
            i += 1;
        }
        let mut entries = self.entries;
        entries.push(disclosure);
        Ok(DisclosureSet { entries })
    }

    /// The set that a transported text carries: the text is cut at each `~`,
    /// and each piece is read as a disclosure.
    pub fn decode(text: &[u8]) -> (r: Result<DisclosureSet, Error>)
        ensures
            r is Ok <==> is_disclosure_set(text@),
            r is Ok ==> r->Ok_0.wf() && r->Ok_0.entries().len() == segments(text@).len()
                && forall|i: int|
                0 <= i < segments(text@).len() ==> Some((#[trigger] r->Ok_0.entries()[i])@)
                    == disclosure_of(segments(text@)[i]),
            r is Err ==> r->Err_0 == Error::MalformedDisclosures,
    {
        let pieces = split(text);
        let ghost read = disclosures_of(segments(text@));
        let mut set = DisclosureSet::new();
        let mut i: usize = 0;
        while i < pieces.len()
            invariant
                i <= pieces.len(),
                contents(pieces@) == segments(text@),
                read == disclosures_of(segments(text@)),
                set.wf(),
                set.entries().len() == i,
                forall|j: int| 0 <= j < i ==> Some((#[trigger] set.entries()[j])@) == read[j],
            decreases pieces.len() - i,
        {
            assert(contents(pieces@)[i as int] == pieces@[i as int]@);
            let disclosure = match Disclosure::decode(pieces[i].as_slice()) {
                Ok(disclosure) => disclosure,
                Err(e) => {
                    assert(read[i as int] is None);
                    return Err(e);
                },
            };
            assert(read[i as int] == Some(disclosure@));
            let ghost before = set.entries();
            let ghost name = disclosure.name@;
            set = match set.with(disclosure) {
                Ok(larger) => larger,
                Err(e) => {
                    proof {
                        let j = choose|j: int|
                            0 <= j < before.len() && #[trigger] before[j].name@ == name;
                        assert(Some(before[j]@) == read[j]);
                        assert(read[j]->Some_0.1 == read[i as int]->Some_0.1);
                    }
                    return Err(e);
                },
            };
            i += 1;
        }
        proof {
            set.lemma_decoded(read);
        }
        Ok(set)
    }

    /// A set whose disclosures are what the pieces of a text disclose shows
    /// that the text can be read.
    proof fn lemma_decoded(&self, read: Seq<Option<(nat, Seq<char>, Seq<char>)>>)
        requires
            self.wf(),
            self.entries().len() == read.len(),
            forall|j: int| 0 <= j < read.len() ==> Some((#[trigger] self.entries()[j])@) == read[j],
        ensures
            forall|i: int| 0 <= i < read.len() ==> (#[trigger] read[i]) is Some,
            forall|i: int, j: int|
                0 <= i < j < read.len() ==> (#[trigger] read[i])->Some_0.1 != (
                #[trigger] read[j])->Some_0.1,
    {
        assert forall|i: int| 0 <= i < read.len() implies (#[trigger] read[i]) is Some by {
            assert(Some(self.entries()[i]@) == read[i]);
        }
        assert forall|i: int, j: int| 0 <= i < j < read.len() implies (#[trigger] read[i])->Some_0.1
            != (#[trigger] read[j])->Some_0.1 by {
            assert(Some(self.entries()[i]@) == read[i]);
            assert(Some(self.entries()[j]@) == read[j]);
        }
    }

    /// The text that carries the set: the texts of its disclosures, joined
    /// by `~`. There is none if some value is no JSON value.
    pub fn encode(&self) -> (r: Result<Vec<u8>, Error>)
        ensures
            r is Ok <==> forall|i: int|
                0 <= i < self.entries().len() ==> disclosure_text(
                    (#[trigger] self.entries()[i]).blinding.encoding(),
                    self.entries()[i].name@,
                    self.entries()[i].value@,
                ) is Some,
            r is Ok ==> r->Ok_0@ == joined(
                Seq::new(
                    self.entries().len(),
                    |i: int|
                        encode_utf8(
                            disclosure_text(
                                self.entries()[i].blinding.encoding(),
                                self.entries()[i].name@,
                                self.entries()[i].value@,
                            )->Some_0,
                        ),
                ),
            ),
            r is Err ==> r->Err_0 == Error::MalformedDisclosures,
    {
        let mut pieces: Vec<Vec<u8>> = Vec::new();
        let mut i: usize = 0;
        while i < self.entries.len()
            invariant
                i <= self.entries.len(),
                pieces@.len() == i,
                forall|j: int|
                    0 <= j < i ==> disclosure_text(
                        (#[trigger] self.entries@[j]).blinding.encoding(),
                        self.entries@[j].name@,
                        self.entries@[j].value@,
                    ) == Some(vstd::utf8::decode_utf8(pieces@[j]@)) && encode_utf8(
                        vstd::utf8::decode_utf8(pieces@[j]@),
                    ) == pieces@[j]@,
            decreases self.entries.len() - i,
        {
            let text = match self.entries[i].encode() {
                Ok(text) => text,
                Err(e) => {
                    return Err(e);
                },
            };
            let mut piece: Vec<u8> = Vec::new();
            append(&mut piece, text.as_str().as_bytes());
            proof {
                vstd::utf8::encode_utf8_decode_utf8(text@);
                assert(piece@ =~= encode_utf8(text@));
            }
            pieces.push(piece);
            i += 1;
        }
        let r = join(&pieces);
        assert(contents(pieces@) =~= Seq::new(
            self.entries().len(),
            |i: int|
                encode_utf8(
                    disclosure_text(
                        self.entries()[i].blinding.encoding(),
                        self.entries()[i].name@,
                        self.entries()[i].value@,
                    )->Some_0,
                ),
        ));
        Ok(r)
    }
}

} // verus!
