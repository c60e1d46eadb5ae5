//! Reading the subject of the certificate that a library was signed with.
//!
//! The signature is embedded in the library. The system is asked for it, then for the size and the
//! contents of what it says of the signer, then for the signer's certificate, and then for the
//! length and the text of the name on it.

use crate::text::push_decimal;
use vstd::prelude::*;

verus! {

/// What is asked next of the system, or what has come of it.
#[derive(Debug, PartialEq, Eq)]
pub enum SignerStep {
    /// Open the embedded signature.
    OpenSignature,
    /// Ask for the size of the signer's entry.
    MeasureSignerInfo,
    /// Read the signer's entry into a buffer of this size.
    ReadSignerInfo {
        /// The size in bytes.
        size: u32,
    },
    /// Find the signer's certificate.
    FindCertificate,
    /// Ask for the length of the name, its terminating zero included.
    MeasureName,
    /// Read the name into a buffer of this length.
    ReadName {
        /// The length in code units.
        length: u32,
    },
    /// The subject, or why it could not be read.
    Done(Result<String, String>),
}

/// What the system replied. Each step reads only what it asked for.
#[derive(Debug, PartialEq, Eq)]
pub struct SignerReply {
    /// Why the call failed, if it did.
    pub error: Option<String>,
    /// The size or length asked for, or the length that was read.
    pub length: u32,
    /// Whether the certificate was found.
    pub found: bool,
    /// The name that was read.
    pub name: Vec<u16>,
}

/// The code units before the first zero.
pub open spec fn until_zero(units: Seq<u16>) -> Seq<u16>
    decreases units.len(),
{
    if units.len() == 0 || units[0] == 0 {
        Seq::empty()
    } else {
        seq![units[0]] + until_zero(units.skip(1))
    }
}

/// Whether a code unit is the first of a surrogate pair.
pub open spec fn is_high_surrogate(unit: u16) -> bool {
    0xd800 <= unit <= 0xdbff
}

/// Whether a code unit is the second of a surrogate pair.
pub open spec fn is_low_surrogate(unit: u16) -> bool {
    0xdc00 <= unit <= 0xdfff
}

/// The text that UTF-16 code units encode, with a replacement character for each surrogate that has
/// no partner.
pub open spec fn utf16_text(units: Seq<u16>) -> Seq<char>
    decreases units.len(),
{
    if units.len() == 0 {
        Seq::empty()
    } else if is_high_surrogate(units[0]) && units.len() > 1 && is_low_surrogate(units[1]) {
        seq![(0x1_0000 + (units[0] - 0xd800) * 0x400 + (units[1] - 0xdc00)) as char] + utf16_text(
            units.skip(2),
        )
    } else if is_high_surrogate(units[0]) || is_low_surrogate(units[0]) {
        seq!['\u{fffd}'] + utf16_text(units.skip(1))
    } else {
        seq![units[0] as char] + utf16_text(units.skip(1))
    }
}

/// `String::from_utf16_lossy`: decodes UTF-16 and puts a replacement character (U+FFFD) in the place
/// of each surrogate that has no partner.
pub assume_specification[ String::from_utf16_lossy ](v: &[u16]) -> (r: String)
    ensures
        r@ == utf16_text(v@),
;

/// The code units of a character decode to it, whatever follows them.
proof fn encoded_character_is_read_back(c: char, rest: Seq<u16>)
    ensures
        utf16_text(crate::feature_info::utf16_units(c) + rest) == seq![c] + utf16_text(rest),
{
    let units = crate::feature_info::utf16_units(c) + rest;
    if (c as u32) < 0x1_0000 {
        assert(units.skip(1) =~= rest);
    } else {
        assert(units.skip(2) =~= rest);
    }
}

proof fn encoded_start_is_read_back(text: Seq<char>, rest: Seq<u16>)
    ensures
        utf16_text(crate::feature_info::utf16(text) + rest) == text + utf16_text(rest),
    decreases text.len(),
{
    if text.len() == 0 {
        assert(crate::feature_info::utf16(text) + rest =~= rest);
        assert(text + utf16_text(rest) =~= utf16_text(rest));
    } else {
        let before = text.drop_last();
        let last = crate::feature_info::utf16_units(text.last());
        encoded_start_is_read_back(before, last + rest);
        encoded_character_is_read_back(text.last(), rest);
        assert(crate::feature_info::utf16(text) + rest =~= crate::feature_info::utf16(before) + (last
            + rest));
        assert(before + (seq![text.last()] + utf16_text(rest)) =~= text + utf16_text(rest));
    }
}

/// A text is read back from the code units that encode it.
pub proof fn encoded_texts_are_read_back(text: Seq<char>)
    ensures
        utf16_text(crate::feature_info::utf16(text)) == text,
{
    encoded_start_is_read_back(text, Seq::empty());
    assert(crate::feature_info::utf16(text) + Seq::<u16>::empty() =~= crate::feature_info::utf16(
        text,
    ));
    assert(text + utf16_text(Seq::empty()) =~= text);
}

/// The part of a name buffer before its terminating zero.
fn before_terminator(name: &Vec<u16>) -> (r: Vec<u16>)
    ensures
        r@ == until_zero(name@),
{
    let mut units: Vec<u16> = Vec::new();
    let mut i: usize = 0;
    assert(name@.skip(0) =~= name@);
    while i < name.len() && name[i] != 0
        invariant
            i <= name.len(),
            units@ + until_zero(name@.skip(i as int)) == until_zero(name@),
        decreases name.len() - i,
    {
        assert(name@.skip(i as int).skip(1) =~= name@.skip(i + 1));
        assert(units@.push(name@[i as int]) + until_zero(name@.skip(i + 1)) =~= units@ + (seq![
            name@[i as int],
        ] + until_zero(name@.skip(i + 1))));
        units.push(name[i]);
        i = i + 1;
    }
    assert(until_zero(name@.skip(i as int)) =~= Seq::empty());
    assert(units@ + Seq::<u16>::empty() =~= units@);
    units
}

/// The report of a failed call.
pub open spec fn call_failure(call: Seq<char>, error: Seq<char>) -> Seq<char> {
    call + " failed: "@ + error
}

fn report_failure(call: &str, error: &String) -> (r: String)
    ensures
        r@ == call_failure(call@, error@),
{
    let mut report = call.to_string();
    report.append(" failed: ");
    report.append(error.as_str());
    report
}

/// Whether a step ends the reading with an error that says `report`.
pub open spec fn ends_with_error(step: SignerStep, report: Seq<char>) -> bool {
    step matches SignerStep::Done(Err(text)) && text@ == report
}

impl SignerStep {
    /// Whether `next` is what follows this step, where a signer's entry takes at least
    /// `signer_info_size` bytes.
    pub open spec fn leads_to(
        self,
        reply: SignerReply,
        signer_info_size: u32,
        next: SignerStep,
    ) -> bool {
        match self {
            SignerStep::OpenSignature => match reply.error {
                None => next == SignerStep::MeasureSignerInfo,
                Some(error) => ends_with_error(next, call_failure("CryptQueryObject"@, error@)),
            },
            SignerStep::MeasureSignerInfo => match reply.error {
                None => if reply.length < signer_info_size {
                    ends_with_error(
                        next,
                        "CMSG_SIGNER_INFO blob too small ("@ + crate::text::decimal(
                            reply.length as nat,
                        ) + " bytes)"@,
                    )
                } else {
                    next == (SignerStep::ReadSignerInfo { size: reply.length })
                },
                Some(error) => ends_with_error(
                    next,
                    call_failure("CryptMsgGetParam(size)"@, error@),
                ),
            },
            SignerStep::ReadSignerInfo { .. } => match reply.error {
                None => next == SignerStep::FindCertificate,
                Some(error) => ends_with_error(
                    next,
                    call_failure("CryptMsgGetParam(data)"@, error@),
                ),
            },
            SignerStep::FindCertificate => if reply.found {
                next == SignerStep::MeasureName
            } else {
                ends_with_error(next, "CertFindCertificateInStore found no signer certificate"@)
            },
            SignerStep::MeasureName => if reply.length <= 1 {
                ends_with_error(next, "certificate has an empty subject name"@)
            } else {
                next == (SignerStep::ReadName { length: reply.length })
            },
            SignerStep::ReadName { .. } => if reply.length == 0 {
                ends_with_error(next, "CertGetNameStringW returned an empty name"@)
            } else {
                next matches SignerStep::Done(Ok(subject)) && subject@ == utf16_text(
                    until_zero(reply.name@),
                )
            },
            SignerStep::Done(_) => next == self,
        }
    }

    /// The step that follows, where a signer's entry takes at least `signer_info_size` bytes. A name
    /// whose units encode a text is read as that text.
    pub fn next(self, reply: SignerReply, signer_info_size: u32) -> (r: SignerStep)
        ensures
            self.leads_to(reply, signer_info_size, r),
            self is ReadName && reply.length != 0 ==> forall|text: Seq<char>|
                until_zero(reply.name@) == #[trigger] crate::feature_info::utf16(text) ==> (
                r matches SignerStep::Done(Ok(subject)) && subject@ == text),
    {
        match self {
            SignerStep::OpenSignature => match reply.error {
                None => SignerStep::MeasureSignerInfo,
                Some(error) => SignerStep::Done(Err(report_failure("CryptQueryObject", &error))),
            },
            SignerStep::MeasureSignerInfo => match reply.error {
                None => {
                    if reply.length < signer_info_size {
                        let mut report = "CMSG_SIGNER_INFO blob too small (".to_string();
                        push_decimal(&mut report, reply.length);
                        report.append(" bytes)");
                        SignerStep::Done(Err(report))
                    } else {
                        SignerStep::ReadSignerInfo { size: reply.length }
                    }
                },
                Some(error) => SignerStep::Done(
                    Err(report_failure("CryptMsgGetParam(size)", &error)),
                ),
            },
            SignerStep::ReadSignerInfo { .. } => match reply.error {
                None => SignerStep::FindCertificate,
                Some(error) => SignerStep::Done(
                    Err(report_failure("CryptMsgGetParam(data)", &error)),
                ),
            },
            SignerStep::FindCertificate => {
                if reply.found {
                    SignerStep::MeasureName
                } else {
                    SignerStep::Done(
                        Err("CertFindCertificateInStore found no signer certificate".to_string()),
                    )
                }
            },
            SignerStep::MeasureName => {
                if reply.length <= 1 {
                    SignerStep::Done(Err("certificate has an empty subject name".to_string()))
                } else {
                    SignerStep::ReadName { length: reply.length }
                }
            },
            SignerStep::ReadName { .. } => {
                if reply.length == 0 {
                    SignerStep::Done(Err("CertGetNameStringW returned an empty name".to_string()))
                } else {
                    let units = before_terminator(&reply.name);
                    proof {
                        assert forall|text: Seq<char>|
                            units@ == #[trigger] crate::feature_info::utf16(
                                text,
                            ) implies utf16_text(units@) == text by {
                            encoded_texts_are_read_back(text);
                        }
                    }
                    SignerStep::Done(Ok(String::from_utf16_lossy(units.as_slice())))
                }
            },
            SignerStep::Done(outcome) => SignerStep::Done(outcome),
        }
    }
}

/// The first question about a signer.
pub fn extract_signer_subject() -> (r: SignerStep)
    ensures
        r == SignerStep::OpenSignature,
{
    SignerStep::OpenSignature
}

/// Whether `steps` is a course of reading: it starts with the first question, and each step follows
/// from the one before and what the system replied.
pub open spec fn is_reading(
    steps: Seq<SignerStep>,
    replies: Seq<SignerReply>,
    signer_info_size: u32,
) -> bool {
    &&& steps.len() == replies.len() + 1
    &&& steps[0] == SignerStep::OpenSignature
    &&& forall|i: int|
        0 <= i < replies.len() ==> (#[trigger] steps[i]).leads_to(
            replies[i],
            signer_info_size,
            steps[i + 1],
        )
}

/// A reading ends after six replies at the most. It gives a subject only where the signature was
/// opened, the signer's entry was read and large enough, the certificate was found, and the name on
/// it is not empty.
pub proof fn a_subject_is_read_only_from_a_certificate(
    steps: Seq<SignerStep>,
    replies: Seq<SignerReply>,
    signer_info_size: u32,
)
    requires
        is_reading(steps, replies, signer_info_size),
        replies.len() == 6,
    ensures
        steps.last() is Done,
        steps.last() matches SignerStep::Done(Ok(_)) <==> {
            &&& replies[0].error is None
            &&& replies[1].error is None
            &&& replies[1].length >= signer_info_size
            &&& replies[2].error is None
            &&& replies[3].found
            &&& replies[4].length > 1
            &&& replies[5].length != 0
        },
{
    assert(steps[0].leads_to(replies[0], signer_info_size, steps[1]));
    assert(steps[1].leads_to(replies[1], signer_info_size, steps[2]));
    assert(steps[2].leads_to(replies[2], signer_info_size, steps[3]));
    assert(steps[3].leads_to(replies[3], signer_info_size, steps[4]));
    assert(steps[4].leads_to(replies[4], signer_info_size, steps[5]));
    assert(steps[5].leads_to(replies[5], signer_info_size, steps[6]));
}

} // verus!
