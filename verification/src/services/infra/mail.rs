use vstd::prelude::*;

use lettre::address::AddressError;
use lettre::message::Mailbox;

use crate::services::domain::mail::MailAddressValidationService;

verus! {

/// Whether the characters `s` end with the characters `suffix`.
pub open spec fn has_suffix(s: Seq<char>, suffix: Seq<char>) -> bool {
    &&& suffix.len() <= s.len()
    &&& s.subrange(s.len() - suffix.len(), s.len() as int) == suffix
}

/// Whether `s` ends with `suffix`, character by character.
pub fn ends_with(s: &str, suffix: &str) -> (r: bool)
    ensures
        r == has_suffix(s@, suffix@),
{
    let n = s.unicode_len();
    let m = suffix.unicode_len();
    if m > n {
        return false;
    }
    let offset = n - m;
    let mut i: usize = 0;
    while i < m
        invariant
            n == s@.len(),
            m == suffix@.len(),
            m <= n,
            offset == n - m,
            i <= m,
            forall|j: int| 0 <= j < i ==> s@[offset + j] == suffix@[j],
        decreases m - i,
    {
        if s.get_char(offset + i) != suffix.get_char(i) {
            assert(s@.subrange(offset as int, n as int)[i as int] != suffix@[i as int]);
            return false;
        }
        i = i + 1;
    }
    assert(s@.subrange(offset as int, n as int) =~= suffix@);
    true
}

/// The mail domain of the Federal University of ABC.
pub open spec fn ufabc_domain() -> Seq<char> {
    seq!['u', 'f', 'a', 'b', 'c', '.', 'e', 'd', 'u', '.', 'b', 'r']
}

/// Accepts exactly the addresses that end with `ufabc.edu.br`.
pub struct UFABCMailAddressValidationService;

impl MailAddressValidationService for UFABCMailAddressValidationService {
    open spec fn accepts(&self, email: Seq<char>) -> bool {
        has_suffix(email, ufabc_domain())
    }

    fn is_valid(&self, email: &str) -> (valid: bool)
        ensures
            valid == has_suffix(email@, ufabc_domain()),
    {
        let domain = "ufabc.edu.br";
        proof {
            reveal_strlit("ufabc.edu.br");
            assert(domain@ =~= ufabc_domain());
        }
        ends_with(email, domain)
    }
}

#[verifier::external_type_specification]
#[verifier::external_body]
pub struct ExMailbox(Mailbox);

#[verifier::external_type_specification]
#[verifier::external_body]
pub struct ExAddressError(AddressError);

/// The mailbox that lettre reads from `text` (an address, with or without a
/// display name); `None` where lettre cannot read `text` as a mailbox. (What
/// `Mailbox::from_str` answers, a function of the text.)
pub uninterp spec fn mailbox_parses(text: Seq<char>) -> Option<Mailbox>;

/// Calls `Mailbox::from_str` (through `str::parse`) on `text`. Its answer is
/// a function of the text, named `mailbox_parses`.
#[verifier::external_body]
fn parse_mailbox(text: &str) -> (r: Result<Mailbox, AddressError>)
    ensures
        mailbox_parses(text@) == match r {
            Ok(m) => Some(m),
            Err(_) => None::<Mailbox>,
        },
{
    text.parse::<Mailbox>()
}

/// The sender of the code mail, as text.
pub open spec fn code_mail_sender_text() -> Seq<char> {
    "Tamanduauth <tamanduauth@authmail.tamanduapi.gay>"@
}

/// The mailbox that code mails are sent from; `None` where lettre cannot read it.
pub fn code_mail_sender() -> (r: Option<Mailbox>)
    ensures
        r == mailbox_parses(code_mail_sender_text()),
{
    match parse_mailbox("Tamanduauth <tamanduauth@authmail.tamanduapi.gay>") {
        Ok(mailbox) => Some(mailbox),
        Err(_) => None,
    }
}

/// The mailbox that a code mail for `email` is sent to: the one lettre reads
/// from `email` itself; `None` where lettre cannot read `email` as a mailbox.
pub fn code_mail_recipient(email: &str) -> (r: Option<Mailbox>)
    ensures
        r == mailbox_parses(email@),
{
    match parse_mailbox(email) {
        Ok(mailbox) => Some(mailbox),
        Err(_) => None,
    }
}

} // verus!
