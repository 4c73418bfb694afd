//! Laws of the registry, stated and proved once for all values: the
//! round trip between numbers and variants, the `Unknown` fallback, the
//! emptiness of the reason phrase exactly on `Unknown`, and the spacing
//! discipline of the rendered display text.

use crate::StatusClass;
use crate::StatusCode;
use crate::display::spec_dec_digits;
use crate::display::spec_digit_char;
use crate::is_registered;
use vstd::prelude::*;

verus! {

/// `text` holds no two consecutive spaces.
pub open spec fn no_double_space(text: Seq<char>) -> bool {
    forall|i: int| 0 <= i && i + 1 < text.len() ==> !(#[trigger] text[i] == ' ' && text[i + 1] == ' ')
}

/// `text` does not end with a space.
pub open spec fn no_trailing_space(text: Seq<char>) -> bool {
    text.len() > 0 ==> text[text.len() - 1] != ' '
}

/// A well-formed reason phrase: non-empty, no space at either end, and
/// no two consecutive spaces inside.
pub open spec fn phrase_wf(phrase: Seq<char>) -> bool {
    &&& phrase.len() > 0
    &&& phrase[0] != ' '
    &&& phrase[phrase.len() - 1] != ' '
    &&& no_double_space(phrase)
}

/// `c` is one of the ten decimal digit characters.
pub open spec fn is_dec_digit(c: char) -> bool {
    ||| c == '0'
    ||| c == '1'
    ||| c == '2'
    ||| c == '3'
    ||| c == '4'
    ||| c == '5'
    ||| c == '6'
    ||| c == '7'
    ||| c == '8'
    ||| c == '9'
}

/// Converting a registered number to its variant and back returns the
/// same number.
pub proof fn lemma_registered_round_trip(code: u16)
    requires
        is_registered(code),
    ensures
        StatusCode::spec_from(code).spec_code() == code,
{
}

/// Converting an unregistered number yields `Unknown` carrying that
/// number verbatim, whose numeric projection returns it unchanged.
pub proof fn lemma_unregistered_is_unknown(code: u16)
    requires
        !is_registered(code),
    ensures
        StatusCode::spec_from(code) == StatusCode::Unknown(code),
        StatusCode::spec_from(code).spec_code() == code,
{
}

/// The class of every status value — named or `Unknown`, over all
/// possible numbers — is exactly the range bucket of its numeric code:
/// each of the five known classes holds precisely on its hundred-range,
/// and the unknown class holds precisely below 100 and above 599.
pub proof fn lemma_class_follows_range_table(status: StatusCode)
    ensures
        status.spec_class() == StatusClass::Informational <==> 100 <= status.spec_code() <= 199,
        status.spec_class() == StatusClass::Success <==> 200 <= status.spec_code() <= 299,
        status.spec_class() == StatusClass::Redirection <==> 300 <= status.spec_code() <= 399,
        status.spec_class() == StatusClass::ClientError <==> 400 <= status.spec_code() <= 499,
        status.spec_class() == StatusClass::ServerError <==> 500 <= status.spec_code() <= 599,
        status.spec_class() == StatusClass::Unknown <==> (status.spec_code() < 100
            || status.spec_code() > 599),
{
}

/// The reason phrase of every named variant is a well-formed phrase:
/// non-empty, no space at either end, no two consecutive spaces.
pub proof fn lemma_reason_phrase_wf(status: StatusCode)
    requires
        status !is Unknown,
    ensures
        phrase_wf(status.spec_reason()),
{
    match status {
        StatusCode::Continue => {
            reveal_strlit("Continue");
            assert(phrase_wf("Continue"@));
        },
        StatusCode::SwitchingProtocols => {
            reveal_strlit("Switching Protocols");
            assert(phrase_wf("Switching Protocols"@));
        },
        StatusCode::Processing => {
            reveal_strlit("Processing");
            assert(phrase_wf("Processing"@));
        },
        StatusCode::EarlyHints => {
            reveal_strlit("Early Hints");
            assert(phrase_wf("Early Hints"@));
        },
        StatusCode::Okay => {
            reveal_strlit("OK");
            assert(phrase_wf("OK"@));
        },
        StatusCode::Created => {
            reveal_strlit("Created");
            assert(phrase_wf("Created"@));
        },
        StatusCode::Accepted => {
            reveal_strlit("Accepted");
            assert(phrase_wf("Accepted"@));
        },
        StatusCode::NonAuthoritativeInformation => {
            reveal_strlit("Non-Authoritative Information");
            assert(phrase_wf("Non-Authoritative Information"@));
        },
        StatusCode::NoContent => {
            reveal_strlit("No Content");
            assert(phrase_wf("No Content"@));
        },
        StatusCode::ResetContent => {
            reveal_strlit("Reset Content");
            assert(phrase_wf("Reset Content"@));
        },
        StatusCode::PartialContent => {
            reveal_strlit("Partial Content");
            assert(phrase_wf("Partial Content"@));
        },
        StatusCode::MultiStatus => {
            reveal_strlit("Multi-Status");
            assert(phrase_wf("Multi-Status"@));
        },
        StatusCode::AlreadyReported => {
            reveal_strlit("Already Reported");
            assert(phrase_wf("Already Reported"@));
        },
        StatusCode::IMUsed => {
            reveal_strlit("IM Used");
            assert(phrase_wf("IM Used"@));
        },
        StatusCode::MultipleChoices => {
            reveal_strlit("Multiple Choices");
            assert(phrase_wf("Multiple Choices"@));
        },
        StatusCode::MovedPermanently => {
            reveal_strlit("Moved Permanently");
            assert(phrase_wf("Moved Permanently"@));
        },
        StatusCode::Found => {
            reveal_strlit("Found");
            assert(phrase_wf("Found"@));
        },
        StatusCode::SeeOther => {
            reveal_strlit("See Other");
            assert(phrase_wf("See Other"@));
        },
        StatusCode::NotModified => {
            reveal_strlit("Not Modified");
            assert(phrase_wf("Not Modified"@));
        },
        StatusCode::UseProxy => {
            reveal_strlit("Use Proxy");
            assert(phrase_wf("Use Proxy"@));
        },
        StatusCode::SwitchProxy => {
            reveal_strlit("Switch Proxy");
            assert(phrase_wf("Switch Proxy"@));
        },
        StatusCode::TemporaryRedirect => {
            reveal_strlit("Temporary Redirect");
            assert(phrase_wf("Temporary Redirect"@));
        },
        StatusCode::PermanentRedirect => {
            reveal_strlit("Permanent Redirect");
            assert(phrase_wf("Permanent Redirect"@));
        },
        StatusCode::BadRequest => {
            reveal_strlit("Bad Request");
            assert(phrase_wf("Bad Request"@));
        },
        StatusCode::Unauthorized => {
            reveal_strlit("Unauthorized");
            assert(phrase_wf("Unauthorized"@));
        },
        StatusCode::PaymentRequired => {
            reveal_strlit("Payment Required");
            assert(phrase_wf("Payment Required"@));
        },
        StatusCode::Forbidden => {
            reveal_strlit("Forbidden");
            assert(phrase_wf("Forbidden"@));
        },
        StatusCode::NotFound => {
            reveal_strlit("Not Found");
            assert(phrase_wf("Not Found"@));
        },
        StatusCode::MethodNotAllowed => {
            reveal_strlit("Method Not Allowed");
            assert(phrase_wf("Method Not Allowed"@));
        },
        StatusCode::NotAcceptable => {
            reveal_strlit("Not Acceptable");
            assert(phrase_wf("Not Acceptable"@));
        },
        StatusCode::ProxyAuthenticationRequired => {
            reveal_strlit("Proxy Authentication Required");
            assert(phrase_wf("Proxy Authentication Required"@));
        },
        StatusCode::RequestTimeout => {
            reveal_strlit("Request Timeout");
            assert(phrase_wf("Request Timeout"@));
        },
        StatusCode::Conflict => {
            reveal_strlit("Conflict");
            assert(phrase_wf("Conflict"@));
        },
        StatusCode::Gone => {
            reveal_strlit("Gone");
            assert(phrase_wf("Gone"@));
        },
        StatusCode::LengthRequired => {
            reveal_strlit("Length Required");
            assert(phrase_wf("Length Required"@));
        },
        StatusCode::PreconditionFailed => {
            reveal_strlit("Precondition Failed");
            assert(phrase_wf("Precondition Failed"@));
        },
        StatusCode::PayloadTooLarge => {
            reveal_strlit("Payload Too Large");
            assert(phrase_wf("Payload Too Large"@));
        },
        StatusCode::UriTooLong => {
            reveal_strlit("URI Too Long");
            assert(phrase_wf("URI Too Long"@));
        },
        StatusCode::UnsupportedMediaType => {
            reveal_strlit("Unsupported Media Type");
            assert(phrase_wf("Unsupported Media Type"@));
        },
        StatusCode::RangeNotSatisfiable => {
            reveal_strlit("Range Not Satisfiable");
            assert(phrase_wf("Range Not Satisfiable"@));
        },
        StatusCode::ExpectationFailed => {
            reveal_strlit("Expectation Failed");
            assert(phrase_wf("Expectation Failed"@));
        },
        StatusCode::ImATeapot => {
            reveal_strlit("I'm a teapot");
            assert(phrase_wf("I'm a teapot"@));
        },
        StatusCode::MisdirectedRequest => {
            reveal_strlit("Misdirected Request");
            assert(phrase_wf("Misdirected Request"@));
        },
        StatusCode::UnprocessableEntity => {
            reveal_strlit("Unprocessable Entity");
            assert(phrase_wf("Unprocessable Entity"@));
        },
        StatusCode::Locked => {
            reveal_strlit("Locked");
            assert(phrase_wf("Locked"@));
        },
        StatusCode::FailedDependency => {
            reveal_strlit("Failed Dependency");
            assert(phrase_wf("Failed Dependency"@));
        },
        StatusCode::UpgradeRequired => {
            reveal_strlit("Upgrade Required");
            assert(phrase_wf("Upgrade Required"@));
        },
        StatusCode::PreconditionRequired => {
            reveal_strlit("Precondition Required");
            assert(phrase_wf("Precondition Required"@));
        },
        StatusCode::TooManyRequests => {
            reveal_strlit("Too Many Requests");
            assert(phrase_wf("Too Many Requests"@));
        },
        StatusCode::RequestHeaderFieldsTooLarge => {
            reveal_strlit("Request Header Fields Too Large");
            assert(phrase_wf("Request Header Fields Too Large"@));
        },
        StatusCode::UnavailableForLegalReasons => {
            reveal_strlit("Unavailable For Legal Reasons");
            assert(phrase_wf("Unavailable For Legal Reasons"@));
        },
        StatusCode::InternalServerError => {
            reveal_strlit("Internal Server Error");
            assert(phrase_wf("Internal Server Error"@));
        },
        StatusCode::NotImplemented => {
            reveal_strlit("Not Implemented");
            assert(phrase_wf("Not Implemented"@));
        },
        StatusCode::BadGateway => {
            reveal_strlit("Bad Gateway");
            assert(phrase_wf("Bad Gateway"@));
        },
        StatusCode::ServiceUnavailable => {
            reveal_strlit("Service Unavailable");
            assert(phrase_wf("Service Unavailable"@));
        },
        StatusCode::GatewayTimeout => {
            reveal_strlit("Gateway Timeout");
            assert(phrase_wf("Gateway Timeout"@));
        },
        StatusCode::HttpVersionNotSupported => {
            reveal_strlit("HTTP Version Not Supported");
            assert(phrase_wf("HTTP Version Not Supported"@));
        },
        StatusCode::VariantAlsoNegotiates => {
            reveal_strlit("Variant Also Negotiates");
            assert(phrase_wf("Variant Also Negotiates"@));
        },
        StatusCode::InsufficientStorage => {
            reveal_strlit("Insufficient Storage");
            assert(phrase_wf("Insufficient Storage"@));
        },
        StatusCode::LoopDetected => {
            reveal_strlit("Loop Detected");
            assert(phrase_wf("Loop Detected"@));
        },
        StatusCode::NotExtended => {
            reveal_strlit("Not Extended");
            assert(phrase_wf("Not Extended"@));
        },
        StatusCode::NetworkAuthenticationRequired => {
            reveal_strlit("Network Authentication Required");
            assert(phrase_wf("Network Authentication Required"@));
        },
        StatusCode::Unknown(_) => {
        },
    }
}

/// The reason phrase is empty exactly on `Unknown`: every named variant
/// has a non-empty phrase, and `Unknown` never synthesizes one.
pub proof fn lemma_reason_phrase_empty_iff_unknown(status: StatusCode)
    ensures
        status.spec_reason().len() == 0 <==> status is Unknown,
{
    if status is Unknown {
        reveal_strlit("");
    } else {
        lemma_reason_phrase_wf(status);
    }
}

/// Every character of a decimal rendering is a digit, and there is at
/// least one.
pub proof fn lemma_dec_digits_are_digits(n: nat)
    ensures
        spec_dec_digits(n).len() >= 1,
        forall|i: int|
            0 <= i < spec_dec_digits(n).len() ==> is_dec_digit(#[trigger] spec_dec_digits(n)[i]),
    decreases n,
{
    if n < 10 {
        assert(is_dec_digit(spec_digit_char(n)));
    } else {
        lemma_dec_digits_are_digits(n / 10);
        assert forall|i: int|
            0 <= i < spec_dec_digits(n).len() implies is_dec_digit(
            #[trigger] spec_dec_digits(n)[i],
        ) by {
            if i < spec_dec_digits(n / 10).len() {
                assert(spec_dec_digits(n)[i] == spec_dec_digits(n / 10)[i]);
            } else {
                assert(spec_dec_digits(n)[i] == spec_digit_char(n % 10));
                assert(is_dec_digit(spec_digit_char(n % 10)));
            }
        }
    }
}

/// The rendered display text never holds two consecutive spaces and
/// never ends with a space: the digits hold no space at all, the single
/// separating space of a named variant is flanked by a digit and by the
/// first character of a well-formed phrase, and the phrase itself ends
/// with a non-space.
pub proof fn lemma_display_well_spaced(status: StatusCode)
    ensures
        no_double_space(status.spec_display()),
        no_trailing_space(status.spec_display()),
{
    let n: nat = status.spec_code() as nat;
    let digits: Seq<char> = spec_dec_digits(n);
    lemma_dec_digits_are_digits(n);
    if status is Unknown {
        assert(status.spec_display() == digits);
        assert forall|i: int|
            0 <= i && i + 1 < digits.len() implies !(#[trigger] digits[i] == ' ' && digits[i + 1]
            == ' ') by {
            assert(is_dec_digit(digits[i]));
        }
        assert(is_dec_digit(digits[digits.len() - 1]));
    } else {
        lemma_reason_phrase_wf(status);
        let phrase: Seq<char> = status.spec_reason();
        let text: Seq<char> = digits + seq![' '] + phrase;
        assert(status.spec_display() == text);
        assert forall|i: int|
            0 <= i && i + 1 < text.len() implies !(#[trigger] text[i] == ' ' && text[i + 1]
            == ' ') by {
            let dl: int = digits.len() as int;
            if i + 1 <= dl {
                assert(text[i] == digits[i]);
                assert(is_dec_digit(digits[i]));
            } else if i == dl {
                assert(text[i + 1] == phrase[0]);
            } else {
                assert(text[i] == phrase[i - dl - 1]);
                assert(text[i + 1] == phrase[i - dl]);
            }
        }
        assert(text[text.len() - 1] == phrase[phrase.len() - 1]);
    }
}

} // verus!
