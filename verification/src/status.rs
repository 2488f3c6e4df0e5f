//! Tagged IMAP status responses and their wire form.

use crate::envelope::decimal_bytes;
use crate::envelope::push_decimal;
use vstd::prelude::*;
use vstd::utf8::encode_utf8;

verus! {

/// The kind of a status response.
#[derive(Clone, Copy, Debug, PartialEq, Eq, Structural)]
pub enum ResponseType {
    Okay,
    No,
    Bad,
}

/// The bracketed code of a status response.
#[derive(Debug)]
pub enum ResponseCode {
    TryCreate,
    Cannot,
    NoPerm,
    OverQuota,
    ContactAdmin,
    AppendUid { uid_validity: u32, uids: Vec<u32> },
}

/// A `ResponseCode` as plain values.
pub enum ResponseCodeView {
    TryCreate,
    Cannot,
    NoPerm,
    OverQuota,
    ContactAdmin,
    AppendUid { uid_validity: u32, uids: Seq<u32> },
}

impl View for ResponseCode {
    type V = ResponseCodeView;

    open spec fn view(&self) -> ResponseCodeView {
        match self {
            ResponseCode::TryCreate => ResponseCodeView::TryCreate,
            ResponseCode::Cannot => ResponseCodeView::Cannot,
            ResponseCode::NoPerm => ResponseCodeView::NoPerm,
            ResponseCode::OverQuota => ResponseCodeView::OverQuota,
            ResponseCode::ContactAdmin => ResponseCodeView::ContactAdmin,
            ResponseCode::AppendUid { uid_validity, uids } => ResponseCodeView::AppendUid {
                uid_validity: *uid_validity,
                uids: uids@,
            },
        }
    }
}

/// A status response: `tag`, or `*` without one; kind; code; text.
#[derive(Debug)]
pub struct StatusResponse {
    pub tag: Option<String>,
    pub code: Option<ResponseCode>,
    pub message: String,
    pub rtype: ResponseType,
}

/// A `StatusResponse` as plain values.
pub struct StatusResponseView {
    pub tag: Option<Seq<char>>,
    pub code: Option<ResponseCodeView>,
    pub message: Seq<char>,
    pub rtype: ResponseType,
}

impl View for StatusResponse {
    type V = StatusResponseView;

    open spec fn view(&self) -> StatusResponseView {
        StatusResponseView {
            tag: match self.tag {
                Some(t) => Some(t@),
                None => None,
            },
            code: match self.code {
                Some(c) => Some(c@),
                None => None,
            },
            message: self.message@,
            rtype: self.rtype,
        }
    }
}

/// The numbers of `uids` in decimal, with commas between them.
pub open spec fn uid_list(uids: Seq<u32>) -> Seq<u8>
    decreases uids.len(),
{
    if uids.len() == 0 {
        Seq::empty()
    } else if uids.len() == 1 {
        decimal_bytes(uids[0] as nat)
    } else {
        uid_list(uids.drop_last()) + seq![44u8] + decimal_bytes(uids.last() as nat)
    }
}

/// The wire form of a code, without its brackets.
pub open spec fn code_wire(code: ResponseCodeView) -> Seq<u8> {
    match code {
        ResponseCodeView::TryCreate => encode_utf8("TRYCREATE"@),
        ResponseCodeView::Cannot => encode_utf8("CANNOT"@),
        ResponseCodeView::NoPerm => encode_utf8("NOPERM"@),
        ResponseCodeView::OverQuota => encode_utf8("OVERQUOTA"@),
        ResponseCodeView::ContactAdmin => encode_utf8("CONTACTADMIN"@),
        ResponseCodeView::AppendUid { uid_validity, uids } => encode_utf8("APPENDUID "@)
            + decimal_bytes(uid_validity as nat) + seq![32u8] + uid_list(uids),
    }
}

/// The wire form of a kind.
pub open spec fn type_wire(rtype: ResponseType) -> Seq<u8> {
    match rtype {
        ResponseType::Okay => encode_utf8("OK"@),
        ResponseType::No => encode_utf8("NO"@),
        ResponseType::Bad => encode_utf8("BAD"@),
    }
}

/// The wire form of a response: tag, kind, the code in brackets where there
/// is one, the text, and a line end.
pub open spec fn response_wire(r: StatusResponseView) -> Seq<u8> {
    (match r.tag {
        Some(t) => encode_utf8(t),
        None => seq![42u8],
    }) + seq![32u8] + type_wire(r.rtype) + seq![32u8] + (match r.code {
        Some(c) => seq![91u8] + code_wire(c) + seq![93u8, 32u8],
        None => Seq::empty(),
    }) + encode_utf8(r.message) + seq![13u8, 10u8]
}

impl ResponseCode {
    /// Appends the wire form of the code to `out`.
    pub fn serialize(&self, out: &mut Vec<u8>)
        ensures
            final(out)@ == old(out)@ + code_wire(self@),
    {
        let ghost before = out@;
        match self {
            ResponseCode::TryCreate => out.extend_from_slice("TRYCREATE".as_bytes()),
            ResponseCode::Cannot => out.extend_from_slice("CANNOT".as_bytes()),
            ResponseCode::NoPerm => out.extend_from_slice("NOPERM".as_bytes()),
            ResponseCode::OverQuota => out.extend_from_slice("OVERQUOTA".as_bytes()),
            ResponseCode::ContactAdmin => out.extend_from_slice("CONTACTADMIN".as_bytes()),
            ResponseCode::AppendUid { uid_validity, uids } => {
                out.extend_from_slice("APPENDUID ".as_bytes());
                push_decimal(out, *uid_validity);
                out.push(32);
                let ghost head = out@;
                let mut i: usize = 0;
                while i < uids.len()
                    invariant
                        i <= uids@.len(),
                        out@ == head + uid_list(uids@.take(i as int)),
                    decreases uids@.len() - i,
                {
                    let ghost prev = out@;
                    if i > 0 {
                        out.push(44);
                    }
                    push_decimal(out, uids[i]);
                    proof {
                        let next = uids@.take(i + 1);
                        assert(next.drop_last() =~= uids@.take(i as int));
                        assert(next.last() == uids@[i as int]);
                        assert(out@ =~= head + uid_list(next));
                    }
                    i = i + 1;
                }
                proof {
                    assert(uids@.take(i as int) =~= uids@);
                    assert(out@ =~= before + code_wire(self@));
                }
            },
        }
    }
}

impl StatusResponse {
    /// An untagged `NO` with `message`.
    pub fn no(message: &str) -> (r: StatusResponse)
        ensures
            r@ == (StatusResponseView {
                tag: None,
                code: None,
                message: message@,
                rtype: ResponseType::No,
            }),
    {
        StatusResponse { tag: None, code: None, message: message.to_owned(), rtype: ResponseType::No }
    }

    /// An untagged `OK` that reports `command` completed.
    pub fn completed(command: &str) -> (r: StatusResponse)
        ensures
            r@.tag is None,
            r@.code is None,
            r@.rtype == ResponseType::Okay,
            encode_utf8(r@.message) == encode_utf8(command@) + encode_utf8(" completed"@),
    {
        let mut text: Vec<u8> = Vec::new();
        text.extend_from_slice(command.as_bytes());
        text.extend_from_slice(" completed".as_bytes());
        proof {
            assert(text@ =~= encode_utf8(command@) + encode_utf8(" completed"@));
            vstd::utf8::encode_utf8_valid_utf8(command@);
            vstd::utf8::encode_utf8_valid_utf8(" completed"@);
            vstd::utf8::valid_utf8_concat(encode_utf8(command@), encode_utf8(" completed"@));
        }
        let message = match crate::cipher::utf8_string(text) {
            Some(m) => m,
            None => String::new(),
        };
        StatusResponse { tag: None, code: None, message, rtype: ResponseType::Okay }
    }

    /// The untagged `NO` for a store that failed.
    pub fn database_failure() -> (r: StatusResponse)
        ensures
            r@ == (StatusResponseView {
                tag: None,
                code: Some(ResponseCodeView::ContactAdmin),
                message: "Database failure."@,
                rtype: ResponseType::No,
            }),
    {
        StatusResponse::no("Database failure.").with_code(ResponseCode::ContactAdmin)
    }

    /// The response with `tag` in place of its tag.
    pub fn with_tag(self, tag: &str) -> (r: StatusResponse)
        ensures
            r@ == (StatusResponseView { tag: Some(tag@), ..self@ }),
    {
        StatusResponse {
            tag: Some(tag.to_owned()),
            code: self.code,
            message: self.message,
            rtype: self.rtype,
        }
    }

    /// The response with `code` in place of its code.
    pub fn with_code(self, code: ResponseCode) -> (r: StatusResponse)
        ensures
            r@ == (StatusResponseView { code: Some(code@), ..self@ }),
    {
        StatusResponse { tag: self.tag, code: Some(code), message: self.message, rtype: self.rtype }
    }

    /// The wire form of the response.
    pub fn into_bytes(self) -> (bytes: Vec<u8>)
        ensures
            bytes@ == response_wire(self@),
    {
        let mut out: Vec<u8> = Vec::new();
        match &self.tag {
            Some(tag) => out.extend_from_slice(tag.as_str().as_bytes()),
            None => out.push(42),
        }
        out.push(32);
        match self.rtype {
            ResponseType::Okay => out.extend_from_slice("OK".as_bytes()),
            ResponseType::No => out.extend_from_slice("NO".as_bytes()),
            ResponseType::Bad => out.extend_from_slice("BAD".as_bytes()),
        }
        out.push(32);
        match &self.code {
            Some(code) => {
                out.push(91);
                code.serialize(&mut out);
                out.push(93);
                out.push(32);
            },
            None => {},
        }
        out.extend_from_slice(self.message.as_str().as_bytes());
        out.push(13);
        out.push(10);
        proof {
            assert(out@ =~= response_wire(self@));
        }
        out
    }
}

} // verus!
