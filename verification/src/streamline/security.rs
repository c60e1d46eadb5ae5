//! Whether a library may be loaded: its signature must chain to a trusted root, and its signer must
//! be NVIDIA.
//!
//! A library is loaded into the process from a path on disk. Before that, two gates are passed. The
//! first is trust, with revocation checked over the whole chain; only where no revocation server can
//! be reached is the check repeated once without revocation, and a revoked certificate stays a hard
//! failure. The second is the identity of the signer, whose subject must contain "NVIDIA". A subject
//! that cannot be read is refused as well, unless the user has opted out of that.

use crate::streamline::error::StreamlineError;
use crate::text::push_hex_fixed;
use vstd::prelude::*;

verus! {

/// What the trust check returns for a trusted file.
pub const WIN_VERIFY_TRUST_S_OK: i32 = 0;

/// Revocation could not be checked.
pub const CERT_E_REVOCATION_FAILURE: u32 = 0x800b_010e;

/// The revocation server was offline.
pub const CRYPT_E_REVOCATION_OFFLINE: u32 = 0x8009_2013;

/// No revocation check could be performed.
pub const CRYPT_E_NO_REVOCATION_CHECK: u32 = 0x8009_2012;

/// The certificate was revoked.
pub const CERT_E_REVOKED: u32 = 0x800b_010c;

/// What the signer's subject must contain, in any case.
pub const REQUIRED_SIGNER_SUBSTR: &'static str = "NVIDIA";

/// The environment variable that, set to `1`, lets a signer pass whose subject cannot be read.
pub const ALLOW_UNVERIFIED_SIGNER_ENV: &'static str = "STREAMLINE_ALLOW_UNVERIFIED_SIGNER";

/// The environment variable that, set to `1`, overrides [`ALLOW_UNVERIFIED_SIGNER_ENV`].
pub const REQUIRE_NVIDIA_SIGNER_ENV: &'static str = "STREAMLINE_REQUIRE_NVIDIA_SIGNER";

/// The value that switches one of these variables on.
pub const SWITCHED_ON: &'static str = "1";

/// Whether a status says that no revocation server could be reached, as opposed to a certificate
/// having been revoked.
pub open spec fn revocation_offline(status: i32) -> bool {
    ||| status as u32 == CERT_E_REVOCATION_FAILURE
    ||| status as u32 == CRYPT_E_REVOCATION_OFFLINE
    ||| status as u32 == CRYPT_E_NO_REVOCATION_CHECK
}

/// Whether a status says that no revocation server could be reached.
pub fn is_revocation_offline(status: i32) -> (r: bool)
    ensures
        r == revocation_offline(status),
{
    let code: u32 = status as u32;
    code == CERT_E_REVOCATION_FAILURE || code == CRYPT_E_REVOCATION_OFFLINE || code
        == CRYPT_E_NO_REVOCATION_CHECK
}

/// A revoked certificate is not mistaken for an unreachable server, and neither is success.
pub proof fn a_revoked_certificate_is_not_offline(status: i32)
    requires
        status as u32 == CERT_E_REVOKED || status == WIN_VERIFY_TRUST_S_OK,
    ensures
        !revocation_offline(status),
{
    if status == 0 {
        assert(0i32 as u32 == 0u32) by (bit_vector);
    }
}

/// The letters of the ASCII alphabet in upper case, other characters as they are.
pub open spec fn ascii_upper(c: char) -> char {
    if 'a' <= c && c <= 'z' {
        ((c as u32) - 32) as char
    } else {
        c
    }
}

/// Whether `needle` stands in `text` at `place`, once the text is put in upper case.
pub open spec fn found_at(text: Seq<char>, needle: Seq<char>, place: int) -> bool {
    &&& 0 <= place
    &&& place + needle.len() <= text.len()
    &&& forall|i: int| 0 <= i < needle.len() ==> ascii_upper(#[trigger] text[place + i]) == needle[i]
}

/// Whether the text, put in upper case, contains `needle`.
pub open spec fn contains_in_any_case(text: Seq<char>, needle: Seq<char>) -> bool {
    exists|place: int| #[trigger] found_at(text, needle, place)
}

fn to_ascii_upper(c: char) -> (r: char)
    ensures
        r == ascii_upper(c),
{
    if 'a' <= c && c <= 'z' {
        (c as u8 - 32) as char
    } else {
        c
    }
}

/// Whether `needle` stands in `text` at `place`, once the text is put in upper case.
fn is_found_at(text: &str, needle: &str, place: usize) -> (r: bool)
    requires
        place + needle@.len() <= text@.len() <= usize::MAX,
    ensures
        r == found_at(text@, needle@, place as int),
{
    let len: usize = needle.unicode_len();
    let mut i: usize = 0;
    while i < len
        invariant
            len == needle@.len(),
            i <= len,
            place + len <= text@.len(),
            text@.len() <= usize::MAX,
            forall|j: int|
                0 <= j < i ==> ascii_upper(#[trigger] text@[place + j]) == needle@[j],
        decreases len - i,
    {
        let c = to_ascii_upper(text.get_char(place + i));
        if c != needle.get_char(i) {
            assert(ascii_upper(text@[place + i]) != needle@[i as int]);
            return false;
        }
        i = i + 1;
    }
    true
}

/// Whether the text, put in upper case, contains `needle`.
pub fn contains_ignoring_case(text: &str, needle: &str) -> (r: bool)
    ensures
        r == contains_in_any_case(text@, needle@),
{
    let text_len: usize = text.unicode_len();
    let needle_len: usize = needle.unicode_len();
    if needle_len > text_len {
        assert(forall|place: int| !(#[trigger] found_at(text@, needle@, place)));
        return false;
    }
    let mut place: usize = 0;
    while place <= text_len - needle_len
        invariant
            text_len == text@.len(),
            needle_len == needle@.len(),
            needle_len <= text_len,
            place <= text_len - needle_len + 1,
            forall|p: int| 0 <= p < place ==> !(#[trigger] found_at(text@, needle@, p)),
        decreases text_len - needle_len + 1 - place,
    {
        if is_found_at(text, needle, place) {
            return true;
        }
        if place == text_len - needle_len {
            assert(forall|p: int| !(#[trigger] found_at(text@, needle@, p)));
            return false;
        }
        place = place + 1;
    }
    assert(forall|p: int| !(#[trigger] found_at(text@, needle@, p)));
    false
}

/// Whether the value of an environment variable switches it on.
pub open spec fn switched_on(value: Option<Seq<char>>) -> bool {
    value == Some(SWITCHED_ON@)
}

fn is_switched_on(value: Option<&str>) -> (r: bool)
    ensures
        r == switched_on(crate::feature_info::optional_text(value)),
{
    match value {
        Some(text) => text.to_string() == SWITCHED_ON.to_string(),
        None => false,
    }
}

/// Whether a signer that could not be confirmed may pass: only where the opt-out is exactly `1` and
/// the guard against it is not.
pub fn unverified_signer_allowed_from(allow: Option<&str>, require: Option<&str>) -> (r: bool)
    ensures
        r == (switched_on(crate::feature_info::optional_text(allow)) && !switched_on(
            crate::feature_info::optional_text(require),
        )),
{
    is_switched_on(allow) && !is_switched_on(require)
}

/// What is asked next about a library, or what has come of it.
#[derive(Debug, PartialEq, Eq)]
pub enum VerifyStep {
    /// Open the file so that nobody else can write or delete it.
    Open,
    /// Check its trust, with the revocation of the whole chain or without any.
    CheckTrust {
        /// Whether revocation is checked.
        revocation: bool,
    },
    /// Read the subject of its signer.
    ReadSigner {
        /// Whether revocation was checked.
        revocation: bool,
    },
    /// It may be loaded, while the file is held open.
    Verified {
        /// Whether revocation was checked.
        revocation: bool,
        /// Whether the signer was confirmed to be NVIDIA.
        signer_confirmed: bool,
    },
    /// It must not be loaded.
    Refused(StreamlineError),
}

/// What was found out. Each step reads only what it asked for.
#[derive(Debug, PartialEq, Eq)]
pub struct VerifyReply {
    /// Why the file could not be opened, if it could not.
    pub open_error: Option<String>,
    /// The status of the trust check.
    pub status: i32,
    /// The subject of the signer, or why it could not be read.
    pub subject: Result<String, String>,
}

/// What the report of a file that could not be opened says.
pub open spec fn open_failure(path: Seq<char>, error: Seq<char>) -> Seq<char> {
    "could not open '"@ + path + "' for verification with a deny-write share lock: "@ + error
}

/// What the report of a failed trust check says.
pub open spec fn trust_failure(path: Seq<char>, status: i32, revocation: bool) -> Seq<char> {
    (if revocation {
        "WinVerifyTrust returned HRESULT 0x"@
    } else {
        "WinVerifyTrust (offline no-revocation retry) returned HRESULT 0x"@
    }) + crate::text::hex_fixed(status as u32 as int, 8) + " for '"@ + path + "'"@
}

/// What stands before the detail in the report of an unreadable signer.
pub const SIGNER_FAILURE_PREFIX: &'static str =
    "could not confirm the signer is NVIDIA (fail-closed default; set STREAMLINE_ALLOW_UNVERIFIED_SIGNER=1 to allow an unverifiable signer): ";

/// The refusal for a report.
pub open spec fn refusal(report: Seq<char>) -> crate::streamline::error::StreamlineErrorView {
    crate::streamline::error::StreamlineErrorView::SignatureVerificationFailed(report)
}

impl VerifyStep {
    /// Whether `next` is what follows this step, for the library at `path`, from what was found out.
    pub open spec fn leads_to(
        self,
        path: Seq<char>,
        reply: VerifyReply,
        allow_unverified: bool,
        next: VerifyStep,
    ) -> bool {
        match self {
            VerifyStep::Open => match reply.open_error {
                None => next == (VerifyStep::CheckTrust { revocation: true }),
                Some(error) => next matches VerifyStep::Refused(e) && e@ == refusal(
                    open_failure(path, error@),
                ),
            },
            VerifyStep::CheckTrust { revocation } => if reply.status == WIN_VERIFY_TRUST_S_OK {
                next == (VerifyStep::ReadSigner { revocation })
            } else if revocation && revocation_offline(reply.status) {
                next == (VerifyStep::CheckTrust { revocation: false })
            } else {
                next matches VerifyStep::Refused(e) && e@ == refusal(
                    trust_failure(path, reply.status, revocation),
                )
            },
            VerifyStep::ReadSigner { revocation } => match reply.subject {
                Ok(subject) => if contains_in_any_case(subject@, REQUIRED_SIGNER_SUBSTR@) {
                    next == (VerifyStep::Verified { revocation, signer_confirmed: true })
                } else {
                    next matches VerifyStep::Refused(e) && e@
                        == crate::streamline::error::StreamlineErrorView::UntrustedSigner(subject@)
                },
                Err(detail) => if allow_unverified {
                    next == (VerifyStep::Verified { revocation, signer_confirmed: false })
                } else {
                    next matches VerifyStep::Refused(e) && e@ == refusal(
                        SIGNER_FAILURE_PREFIX@ + detail@,
                    )
                },
            },
            VerifyStep::Verified { .. } => next == self,
            VerifyStep::Refused(_) => next == self,
        }
    }

    /// The step that follows, for the library at `path`. `allow_unverified` is the user's opt-out
    /// from refusing a signer whose subject cannot be read; a subject that can be read and is not
    /// NVIDIA's is refused in any case.
    pub fn next(self, path: &str, reply: VerifyReply, allow_unverified: bool) -> (r: VerifyStep)
        ensures
            self.leads_to(path@, reply, allow_unverified, r),
    {
        match self {
            VerifyStep::Open => match reply.open_error {
                None => VerifyStep::CheckTrust { revocation: true },
                Some(error) => {
                    let mut report = "could not open '".to_string();
                    report.append(path);
                    report.append("' for verification with a deny-write share lock: ");
                    report.append(error.as_str());
                    VerifyStep::Refused(StreamlineError::SignatureVerificationFailed(report))
                },
            },
            VerifyStep::CheckTrust { revocation } => {
                if reply.status == WIN_VERIFY_TRUST_S_OK {
                    return VerifyStep::ReadSigner { revocation };
                }
                if revocation && is_revocation_offline(reply.status) {
                    return VerifyStep::CheckTrust { revocation: false };
                }
                let mut report = if revocation {
                    "WinVerifyTrust returned HRESULT 0x".to_string()
                } else {
                    "WinVerifyTrust (offline no-revocation retry) returned HRESULT 0x".to_string()
                };
                push_hex_fixed(&mut report, reply.status as u32, 8);
                report.append(" for '");
                report.append(path);
                report.append("'");
                VerifyStep::Refused(StreamlineError::SignatureVerificationFailed(report))
            },
            VerifyStep::ReadSigner { revocation } => match reply.subject {
                Ok(subject) => {
                    if contains_ignoring_case(subject.as_str(), REQUIRED_SIGNER_SUBSTR) {
                        VerifyStep::Verified { revocation, signer_confirmed: true }
                    } else {
                        VerifyStep::Refused(StreamlineError::UntrustedSigner(subject))
                    }
                },
                Err(detail) => {
                    if allow_unverified {
                        VerifyStep::Verified { revocation, signer_confirmed: false }
                    } else {
                        let mut report = SIGNER_FAILURE_PREFIX.to_string();
                        report.append(detail.as_str());
                        VerifyStep::Refused(StreamlineError::SignatureVerificationFailed(report))
                    }
                },
            },
            VerifyStep::Verified { revocation, signer_confirmed } => VerifyStep::Verified {
                revocation,
                signer_confirmed,
            },
            VerifyStep::Refused(e) => VerifyStep::Refused(e),
        }
    }
}

impl VerifyStep {
    /// How a verification has ended: whether the library may be loaded, or why it must not be; `None`
    /// as long as it has not ended.
    pub fn outcome(self) -> (r: Option<Result<(), StreamlineError>>)
        ensures
            match self {
                VerifyStep::Verified { .. } => r == Some(Ok::<(), StreamlineError>(())),
                VerifyStep::Refused(e) => r == Some(Err::<(), StreamlineError>(e)),
                _ => r is None,
            },
    {
        match self {
            VerifyStep::Verified { .. } => Some(Ok(())),
            VerifyStep::Refused(e) => Some(Err(e)),
            _ => None,
        }
    }
}

/// The first question about the interposer, which is loaded while its file is still held open.
pub fn verify_interposer_signature() -> (r: VerifyStep)
    ensures
        r == VerifyStep::Open,
{
    VerifyStep::Open
}

/// The first question about a library that the interposer will pull in. Its file is not held open any
/// longer once it is verified.
pub fn verify_signed_dll() -> (r: VerifyStep)
    ensures
        r == VerifyStep::Open,
{
    VerifyStep::Open
}

/// Whether `steps` is a course of verification: it starts with the first question, and each step
/// follows from the one before and what was found out.
pub open spec fn is_course(
    steps: Seq<VerifyStep>,
    replies: Seq<VerifyReply>,
    path: Seq<char>,
    allow_unverified: bool,
) -> bool {
    &&& steps.len() == replies.len() + 1
    &&& steps[0] == VerifyStep::Open
    &&& forall|i: int|
        0 <= i < replies.len() ==> (#[trigger] steps[i]).leads_to(
            path,
            replies[i],
            allow_unverified,
            steps[i + 1],
        )
}

/// Whether some trust check of this kind succeeded.
pub open spec fn was_trusted(
    steps: Seq<VerifyStep>,
    replies: Seq<VerifyReply>,
    revocation: bool,
) -> bool {
    exists|i: int|
        0 <= i < replies.len() && #[trigger] steps[i] == (VerifyStep::CheckTrust { revocation })
            && replies[i].status == WIN_VERIFY_TRUST_S_OK
}

/// Whether a trust check with revocation found no revocation server.
pub open spec fn was_offline(steps: Seq<VerifyStep>, replies: Seq<VerifyReply>) -> bool {
    exists|i: int|
        0 <= i < replies.len() && #[trigger] steps[i] == (VerifyStep::CheckTrust {
            revocation: true,
        }) && revocation_offline(replies[i].status)
}

/// Whether the signer was read and found to be NVIDIA.
pub open spec fn was_confirmed(steps: Seq<VerifyStep>, replies: Seq<VerifyReply>) -> bool {
    exists|i: int|
        0 <= i < replies.len() && #[trigger] steps[i] is ReadSigner && (replies[i].subject matches Ok(
            subject,
        ) && contains_in_any_case(subject@, REQUIRED_SIGNER_SUBSTR@))
}

/// Whether the signer could not be read.
pub open spec fn was_unreadable(steps: Seq<VerifyStep>, replies: Seq<VerifyReply>) -> bool {
    exists|i: int|
        0 <= i < replies.len() && #[trigger] steps[i] is ReadSigner && replies[i].subject is Err
}

/// What must have been found out for a course to have arrived at its last step.
pub open spec fn is_justified(
    steps: Seq<VerifyStep>,
    replies: Seq<VerifyReply>,
    allow_unverified: bool,
) -> bool {
    match steps.last() {
        VerifyStep::Open => true,
        VerifyStep::CheckTrust { revocation } => revocation || was_offline(steps, replies),
        VerifyStep::ReadSigner { revocation } => {
            &&& was_trusted(steps, replies, revocation)
            &&& revocation || was_offline(steps, replies)
        },
        VerifyStep::Verified { revocation, signer_confirmed } => {
            &&& was_trusted(steps, replies, revocation)
            &&& revocation || was_offline(steps, replies)
            &&& if signer_confirmed {
                was_confirmed(steps, replies)
            } else {
                allow_unverified && was_unreadable(steps, replies)
            }
        },
        VerifyStep::Refused(_) => true,
    }
}

/// A library passes only if a trust check succeeded, with revocation checked unless no server could
/// be reached, and only if its signer was read and is NVIDIA, or could not be read and the user has
/// opted out of refusing that.
pub proof fn only_trusted_libraries_pass(
    steps: Seq<VerifyStep>,
    replies: Seq<VerifyReply>,
    path: Seq<char>,
    allow_unverified: bool,
)
    requires
        is_course(steps, replies, path, allow_unverified),
    ensures
        is_justified(steps, replies, allow_unverified),
    decreases replies.len(),
{
    if replies.len() > 0 {
        let n = replies.len() - 1;
        let before = replies.drop_last();
        let until = steps.drop_last();
        assert forall|i: int| 0 <= i < before.len() implies (#[trigger] until[i]).leads_to(
            path,
            before[i],
            allow_unverified,
            until[i + 1],
        ) by {
            assert(steps[i].leads_to(path, replies[i], allow_unverified, steps[i + 1]));
        }
        only_trusted_libraries_pass(until, before, path, allow_unverified);
        assert(steps[n].leads_to(path, replies[n], allow_unverified, steps[n + 1]));
        assert(until.last() == steps[n]);
        assert forall|revocation: bool| was_trusted(until, before, revocation) implies was_trusted(
            steps,
            replies,
            revocation,
        ) by {
            let i = choose|i: int|
                0 <= i < before.len() && #[trigger] until[i] == (VerifyStep::CheckTrust {
                    revocation,
                }) && before[i].status == WIN_VERIFY_TRUST_S_OK;
            assert(steps[i] == (VerifyStep::CheckTrust { revocation }));
        }
        if was_offline(until, before) {
            let i = choose|i: int|
                0 <= i < before.len() && #[trigger] until[i] == (VerifyStep::CheckTrust {
                    revocation: true,
                }) && revocation_offline(before[i].status);
            assert(steps[i] == (VerifyStep::CheckTrust { revocation: true }));
        }
        if was_confirmed(until, before) {
            let i = choose|i: int|
                0 <= i < before.len() && #[trigger] until[i] is ReadSigner && (
                before[i].subject matches Ok(subject) && contains_in_any_case(
                    subject@,
                    REQUIRED_SIGNER_SUBSTR@,
                ));
            assert(steps[i] is ReadSigner);
        }
        if was_unreadable(until, before) {
            let i = choose|i: int|
                0 <= i < before.len() && #[trigger] until[i] is ReadSigner && before[i].subject
                    is Err;
            assert(steps[i] is ReadSigner);
        }
    }
}

/// A signer that can be read and is not NVIDIA is refused, whatever the user has opted out of.
pub proof fn foreign_signers_are_refused(
    revocation: bool,
    path: Seq<char>,
    reply: VerifyReply,
    allow_unverified: bool,
    next: VerifyStep,
)
    requires
        reply.subject is Ok,
        !contains_in_any_case(reply.subject->Ok_0@, REQUIRED_SIGNER_SUBSTR@),
        (VerifyStep::ReadSigner { revocation }).leads_to(path, reply, allow_unverified, next),
    ensures
        next is Refused,
{
}

/// A verification ends after four replies at the most.
pub proof fn verification_ends(
    steps: Seq<VerifyStep>,
    replies: Seq<VerifyReply>,
    path: Seq<char>,
    allow_unverified: bool,
)
    requires
        is_course(steps, replies, path, allow_unverified),
        replies.len() == 4,
    ensures
        steps.last() is Verified || steps.last() is Refused,
{
    assert(steps[0].leads_to(path, replies[0], allow_unverified, steps[1]));
    assert(steps[1].leads_to(path, replies[1], allow_unverified, steps[2]));
    assert(steps[2].leads_to(path, replies[2], allow_unverified, steps[3]));
    assert(steps[3].leads_to(path, replies[3], allow_unverified, steps[4]));
}

/// Whether two steps are the same, where refusals are the same if they say the same.
pub open spec fn alike(a: VerifyStep, b: VerifyStep) -> bool {
    match (a, b) {
        (VerifyStep::Refused(e), VerifyStep::Refused(f)) => e@ == f@,
        _ => a == b,
    }
}

/// The interposer and the libraries that it pulls in are verified alike: on the same replies, both
/// verifications take the same steps, so that both pass, or both are refused for the same reason.
pub proof fn libraries_are_verified_alike(
    interposer: Seq<VerifyStep>,
    sibling: Seq<VerifyStep>,
    replies: Seq<VerifyReply>,
    path: Seq<char>,
    allow_unverified: bool,
)
    requires
        is_course(interposer, replies, path, allow_unverified),
        is_course(sibling, replies, path, allow_unverified),
    ensures
        forall|i: int|
            0 <= i <= replies.len() ==> alike(#[trigger] interposer[i], sibling[i]),
        interposer.last() is Verified <==> sibling.last() is Verified,
        interposer.last() is Refused <==> sibling.last() is Refused,
        interposer.last() is Refused ==> interposer.last()->Refused_0@
            == sibling.last()->Refused_0@,
    decreases replies.len(),
{
    if replies.len() > 0 {
        let n = replies.len() - 1;
        let before = replies.drop_last();
        let a = interposer.drop_last();
        let b = sibling.drop_last();
        assert forall|i: int| 0 <= i < before.len() implies (#[trigger] a[i]).leads_to(
            path,
            before[i],
            allow_unverified,
            a[i + 1],
        ) by {
            assert(interposer[i].leads_to(path, replies[i], allow_unverified, interposer[i + 1]));
        }
        assert forall|i: int| 0 <= i < before.len() implies (#[trigger] b[i]).leads_to(
            path,
            before[i],
            allow_unverified,
            b[i + 1],
        ) by {
            assert(sibling[i].leads_to(path, replies[i], allow_unverified, sibling[i + 1]));
        }
        libraries_are_verified_alike(a, b, before, path, allow_unverified);
        assert(alike(a[n], b[n]));
        assert(interposer[n].leads_to(path, replies[n], allow_unverified, interposer[n + 1]));
        assert(sibling[n].leads_to(path, replies[n], allow_unverified, sibling[n + 1]));
        assert forall|i: int| 0 <= i <= replies.len() implies alike(
            #[trigger] interposer[i],
            sibling[i],
        ) by {
            if i <= n {
                assert(a[i] == interposer[i] && b[i] == sibling[i]);
            }
        }
    }
}

/// A library whose trust check never succeeds, because it has no valid signature, is refused for
/// that, and its signer is not even read.
pub proof fn unsigned_libraries_are_refused(
    steps: Seq<VerifyStep>,
    replies: Seq<VerifyReply>,
    path: Seq<char>,
    allow_unverified: bool,
)
    requires
        is_course(steps, replies, path, allow_unverified),
        forall|i: int|
            0 <= i < replies.len() && #[trigger] steps[i] is CheckTrust ==> replies[i].status
                != WIN_VERIFY_TRUST_S_OK,
    ensures
        match steps.last() {
            VerifyStep::Open => true,
            VerifyStep::CheckTrust { .. } => true,
            VerifyStep::ReadSigner { .. } => false,
            VerifyStep::Verified { .. } => false,
            VerifyStep::Refused(e) => e is SignatureVerificationFailed,
        },
        replies.len() >= 4 ==> steps.last() is Refused,
    decreases replies.len(),
{
    if replies.len() > 0 {
        let n = replies.len() - 1;
        let before = replies.drop_last();
        let until = steps.drop_last();
        assert forall|i: int| 0 <= i < before.len() implies (#[trigger] until[i]).leads_to(
            path,
            before[i],
            allow_unverified,
            until[i + 1],
        ) by {
            assert(steps[i].leads_to(path, replies[i], allow_unverified, steps[i + 1]));
        }
        assert forall|i: int| 0 <= i < before.len() && #[trigger] until[i] is CheckTrust implies
            before[i].status != WIN_VERIFY_TRUST_S_OK by {
            assert(steps[i] is CheckTrust);
        }
        unsigned_libraries_are_refused(until, before, path, allow_unverified);
        assert(steps[n].leads_to(path, replies[n], allow_unverified, steps[n + 1]));
        assert(until.last() == steps[n]);
        if replies.len() == 4 {
            verification_ends(steps, replies, path, allow_unverified);
        }
    }
}

} // verus!
