//! The record that identifies one occurrence of an error.

use crate::digest::{content_hash, content_hash_of, is_hash_token, is_url_safe_char};
use std::fmt::Display;
use std::str::FromStr;
use vstd::prelude::*;
use vstd::string::to_string_from_display_ensures;

verus! {

/// The structured identity of one error occurrence.
pub struct ErrorInfo<'a, T> {
    /// Application-level status, such as an HTTP status.
    pub app_code: T,
    /// The full code: the error type's prefix followed by the variant's code.
    pub code: &'a str,
    /// Content hash of `server_msg`.
    pub hash: String,
    /// The message declared as safe for clients; may be empty.
    pub client_msg: &'a str,
    /// The full diagnostic text.
    pub server_msg: String,
}

/// What an [`ErrorInfo`] holds, with its texts as sequences of characters.
pub struct ErrorInfoView<T> {
    pub app_code: T,
    pub code: Seq<char>,
    pub hash: Seq<char>,
    pub client_msg: Seq<char>,
    pub server_msg: Seq<char>,
}

impl<T> ErrorInfoView<T> {
    /// The record that is built for diagnostic text `server_msg`.
    pub open spec fn build(
        app_code: T,
        code: Seq<char>,
        client_msg: Seq<char>,
        server_msg: Seq<char>,
    ) -> Self {
        ErrorInfoView { app_code, code, hash: content_hash_of(server_msg), client_msg, server_msg }
    }

    /// The hash is the content hash of the diagnostic text, and has the
    /// shape of one.
    pub open spec fn wf(self) -> bool {
        &&& self.hash == content_hash_of(self.server_msg)
        &&& is_hash_token(self.hash)
    }

    /// The message for clients: the declared one, or the diagnostic text
    /// where none was declared.
    pub open spec fn client_text(self) -> Seq<char> {
        if self.client_msg.len() == 0 {
            self.server_msg
        } else {
            self.client_msg
        }
    }

    /// The token `[<code>-<hash>]: ` that opens both renderings.
    pub open spec fn tag(self) -> Seq<char> {
        seq!['['] + self.code + seq!['-'] + self.hash + seq![']', ':', ' ']
    }

    /// The rendering for clients.
    pub open spec fn client_rendering(self) -> Seq<char> {
        self.tag() + self.client_text()
    }

    /// The rendering for operators.
    pub open spec fn server_rendering(self) -> Seq<char> {
        self.tag() + self.server_msg
    }
}

impl<'a, T> View for ErrorInfo<'a, T> {
    type V = ErrorInfoView<T>;

    open spec fn view(&self) -> ErrorInfoView<T> {
        ErrorInfoView {
            app_code: self.app_code,
            code: self.code@,
            hash: self.hash@,
            client_msg: self.client_msg@,
            server_msg: self.server_msg@,
        }
    }
}

/// Calls `FromStr::from_str` of the status type and drops the error's
/// payload.  Nothing is claimed of the outcome: the status type decides.
#[verifier::external_body]
fn parse_app_code<T: FromStr>(app_code: &str) -> (parsed: Option<T>) {
    T::from_str(app_code).ok()
}

impl<'a, T> ErrorInfo<'a, T> {
    /// Builds the record for a status that has been parsed already, or
    /// nothing where parsing had failed.
    pub fn from_parsed(
        app_code: Option<T>,
        code: &'a str,
        client_msg: &'a str,
        server_msg: String,
    ) -> (info: Option<Self>)
        ensures
            info is Some <==> app_code is Some,
            info matches Some(e) ==> e@ == ErrorInfoView::build(
                app_code->0,
                code@,
                client_msg@,
                server_msg@,
            ),
            info matches Some(e) ==> e@.wf(),
            info matches Some(e) ==> e.server_msg == server_msg,
    {
        match app_code {
            Some(status) => {
                let hash = content_hash(server_msg.as_str());
                Some(ErrorInfo { app_code: status, code, hash, client_msg, server_msg })
            },
            None => None,
        }
    }

    /// The message for clients: the declared one, or the diagnostic text
    /// where none was declared.
    pub fn client_msg(&self) -> (msg: &str)
        ensures
            msg@ == self@.client_text(),
    {
        if self.client_msg.is_empty() {
            self.server_msg.as_str()
        } else {
            self.client_msg
        }
    }

    /// The token `[<code>-<hash>]: ` that opens both renderings.
    fn tag(&self) -> (tag: String)
        ensures
            tag@ == self@.tag(),
    {
        proof {
            reveal_strlit("[");
            reveal_strlit("-");
            reveal_strlit("]: ");
        }
        let mut tag = "[".to_owned();
        tag.append(self.code);
        tag.append("-");
        tag.append(self.hash.as_str());
        tag.append("]: ");
        assert(tag@ =~= self@.tag());
        tag
    }

    /// Renders the record for clients, as `[<code>-<hash>]: <message>` with
    /// the message that [`client_msg`](Self::client_msg) selects.
    pub fn to_string(&self) -> (text: String)
        ensures
            text@ == self@.client_rendering(),
    {
        let mut text = self.tag();
        text.append(self.client_msg());
        text
    }

    /// Renders the record for operators, as `[<code>-<hash>]: <diagnostic text>`.
    pub fn to_debug_string(&self) -> (text: String)
        ensures
            text@ == self@.server_rendering(),
    {
        let mut text = self.tag();
        text.append(self.server_msg.as_str());
        text
    }
}

impl<'a, T: FromStr> ErrorInfo<'a, T> {
    /// Builds the record of an error: parses `app_code` into the status
    /// type, renders `server_msg` once and hashes the rendered text.
    ///
    /// Returns `None` where the status type rejects `app_code`.
    pub fn new<D: Display + ?Sized>(
        app_code: &str,
        code: &'a str,
        client_msg: &'a str,
        server_msg: &D,
    ) -> (info: Option<Self>)
        ensures
            info matches Some(e) ==> to_string_from_display_ensures::<D>(server_msg, e.server_msg),
            info matches Some(e) ==> e.code@ == code@,
            info matches Some(e) ==> e.client_msg@ == client_msg@,
            info matches Some(e) ==> e@.wf(),
    {
        Self::from_parsed(parse_app_code(app_code), code, client_msg, server_msg.to_string())
    }
}

/// Two records of the same diagnostic text carry the same hash.
pub proof fn lemma_same_text_same_hash<T>(a: ErrorInfoView<T>, b: ErrorInfoView<T>)
    requires
        a.wf(),
        b.wf(),
        a.server_msg == b.server_msg,
    ensures
        a.hash == b.hash,
{
}

/// The hash of a record has eleven characters, each of them a letter, a
/// digit, `-` or `_`; the padding character `=` does not occur in it.
pub proof fn lemma_hash_is_unpadded_token<T>(e: ErrorInfoView<T>)
    requires
        e.wf(),
    ensures
        e.hash.len() == 11,
        forall|i: int| 0 <= i < e.hash.len() ==> is_url_safe_char(#[trigger] e.hash[i]),
        !e.hash.contains('='),
{
}

/// Both renderings of a record open with the same token, and what follows
/// the token is the message for clients in the one and the diagnostic text in
/// the other.
pub proof fn lemma_renderings_share_tag<T>(e: ErrorInfoView<T>)
    ensures
        e.tag().is_prefix_of(e.client_rendering()),
        e.tag().is_prefix_of(e.server_rendering()),
        e.client_rendering().skip(e.tag().len() as int) == e.client_text(),
        e.server_rendering().skip(e.tag().len() as int) == e.server_msg,
{
    let tag = e.tag();
    assert(e.client_rendering().subrange(0, tag.len() as int) =~= tag);
    assert(e.server_rendering().subrange(0, tag.len() as int) =~= tag);
    assert(e.client_rendering().skip(tag.len() as int) =~= e.client_text());
    assert(e.server_rendering().skip(tag.len() as int) =~= e.server_msg);
}

/// An error type whose values can be classified.
pub trait ToErrorInfo {
    /// The type of the application status.
    type T;

    /// Classifies this error.
    fn to_error_info(&self) -> ErrorInfo<'_, Self::T>;
}

} // verus!
