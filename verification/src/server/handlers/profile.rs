//! User profiles: the sync request and the checks on an uploaded avatar.
use vstd::prelude::*;
use crate::codec::{base64_decode, base64_standard_decoded};
use crate::text::{decimal, decimal_string, str_eq};

verus! {

/// Body of a profile sync request (create or update).
#[derive(Debug, Clone)]
pub struct ProfileSyncRequest {
    pub user_id: String,
    pub username: Option<String>,
    pub phone: Option<String>,
    pub qq: Option<String>,
    pub wechat: Option<String>,
    /// The avatar image, base64-encoded.
    pub avatar_data: Option<String>,
    /// The avatar's MIME type.
    pub avatar_mime_type: Option<String>,
    pub bio: Option<String>,
}

/// Why an avatar was refused.
#[derive(Debug, Clone)]
pub enum ValidationError {
    /// The data is missing or not valid base64.
    InvalidBase64,
    /// The bytes do not start as the MIME type says.
    InvalidImageFormat,
    /// The decoded image is larger than allowed.
    ImageTooLarge { size: usize, max_size: usize },
    /// The MIME type is not an accepted image type (or is missing).
    UnsupportedMimeType(String),
}

impl ValidationError {
    /// The message shown to the user.
    pub fn message(&self) -> (r: String)
        ensures
            r@ == match self {
                ValidationError::InvalidBase64 => "无效的 Base64 编码"@,
                ValidationError::InvalidImageFormat => "无效的图片格式"@,
                ValidationError::ImageTooLarge { size, max_size } => "图片过大: "@ + decimal(
                    *size as nat,
                ) + " 字节（最大 "@ + decimal(*max_size as nat) + " 字节）"@,
                ValidationError::UnsupportedMimeType(m) => "不支持的图片类型: "@ + m@,
            },
    {
        match self {
            ValidationError::InvalidBase64 => "无效的 Base64 编码".to_owned(),
            ValidationError::InvalidImageFormat => "无效的图片格式".to_owned(),
            ValidationError::ImageTooLarge { size, max_size } => {
                let mut s = "图片过大: ".to_owned();
                s.append(decimal_string(*size as u64).as_str());
                s.append(" 字节（最大 ");
                s.append(decimal_string(*max_size as u64).as_str());
                s.append(" 字节）");
                s
            },
            ValidationError::UnsupportedMimeType(m) => {
                let mut s = "不支持的图片类型: ".to_owned();
                s.append(m.as_str());
                s
            },
        }
    }
}

/// Largest accepted avatar, in bytes (5 MiB).
pub const MAX_AVATAR_SIZE: usize = 5242880usize;

/// The accepted avatar types.
pub open spec fn accepted_mime(m: Seq<char>) -> bool {
    ||| m == "image/jpeg"@
    ||| m == "image/png"@
    ||| m == "image/gif"@
    ||| m == "image/webp"@
    ||| m == "image/bmp"@
    ||| m == "image/svg+xml"@
}

/// The bytes start with the signature of the MIME type (types without a
/// known signature accept any bytes).
pub open spec fn magic_bytes_ok(d: Seq<u8>, mime: Seq<char>) -> bool {
    if mime == "image/jpeg"@ {
        d.len() >= 3 && d[0] == 0xFF && d[1] == 0xD8 && d[2] == 0xFF
    } else if mime == "image/png"@ {
        d.len() >= 8 && d.take(8) == seq![0x89u8, 0x50, 0x4E, 0x47, 0x0D, 0x0A, 0x1A, 0x0A]
    } else if mime == "image/gif"@ {
        d.len() >= 4 && d[0] == 0x47 && d[1] == 0x49 && d[2] == 0x46 && d[3] == 0x38
    } else if mime == "image/webp"@ {
        d.len() >= 12 && d.take(4) == seq![0x52u8, 0x49, 0x46, 0x46] && d.subrange(8, 12) == seq![
            0x57u8,
            0x45,
            0x42,
            0x50,
        ]
    } else if mime == "image/bmp"@ {
        d.len() >= 2 && d[0] == 0x42 && d[1] == 0x4D
    } else {
        true
    }
}

/// Whether `d` holds, from `at` on, the bytes `sig`.
fn bytes_at(d: &[u8], at: usize, sig: &[u8]) -> (r: bool)
    requires
        at + sig@.len() <= d@.len(),
    ensures
        r == (d@.subrange(at as int, at + sig@.len()) == sig@),
{
    let n = sig.len();
    for k in 0..n
        invariant
            n == sig@.len(),
            at + n <= d@.len(),
            d@.len() == d.len(),
            forall|j: int| 0 <= j < k ==> d@[at + j] == sig@[j],
    {
        if d[at + k] != sig[k] {
            assert(d@.subrange(at as int, at + n)[k as int] != sig@[k as int]);
            return false;
        }
    }
    assert(d@.subrange(at as int, at + n) =~= sig@);
    true
}

/// Checks that the image bytes start as the MIME type says.
pub fn validate_image_magic_bytes(data: &[u8], mime_type: &str) -> (r: Result<(), ValidationError>)
    ensures
        r is Ok == magic_bytes_ok(data@, mime_type@),
        r matches Err(e) ==> e is InvalidImageFormat,
{
    let ok = if str_eq(mime_type, "image/jpeg") {
        data.len() >= 3 && data[0] == 0xFF && data[1] == 0xD8 && data[2] == 0xFF
    } else if str_eq(mime_type, "image/png") {
        let sig: [u8; 8] = [0x89, 0x50, 0x4E, 0x47, 0x0D, 0x0A, 0x1A, 0x0A];
        assert(sig@ =~= seq![0x89u8, 0x50, 0x4E, 0x47, 0x0D, 0x0A, 0x1A, 0x0A]);
        let r = data.len() >= 8 && bytes_at(data, 0, sig.as_slice());
        proof {
            if data@.len() >= 8 {
                assert(data@.take(8) =~= data@.subrange(0, 8));
            }
        }
        r
    } else if str_eq(mime_type, "image/gif") {
        data.len() >= 4 && data[0] == 0x47 && data[1] == 0x49 && data[2] == 0x46 && data[3] == 0x38
    } else if str_eq(mime_type, "image/webp") {
        let riff: [u8; 4] = [0x52, 0x49, 0x46, 0x46];
        let webp: [u8; 4] = [0x57, 0x45, 0x42, 0x50];
        assert(riff@ =~= seq![0x52u8, 0x49, 0x46, 0x46]);
        assert(webp@ =~= seq![0x57u8, 0x45, 0x42, 0x50]);
        let r = data.len() >= 12 && bytes_at(data, 0, riff.as_slice()) && bytes_at(
            data,
            8,
            webp.as_slice(),
        );
        proof {
            if data@.len() >= 12 {
                assert(data@.take(4) =~= data@.subrange(0, 4));
            }
        }
        r
    } else if str_eq(mime_type, "image/bmp") {
        data.len() >= 2 && data[0] == 0x42 && data[1] == 0x4D
    } else {
        true
    };
    if ok {
        Ok(())
    } else {
        Err(ValidationError::InvalidImageFormat)
    }
}

/// The outcome of checking decoded avatar bytes of an accepted type: too
/// large, or (but for SVG, which is text) not starting as the type says.
pub open spec fn decoded_avatar_ok(d: Seq<u8>, mime: Seq<char>) -> Result<(), ValidationError> {
    if d.len() > MAX_AVATAR_SIZE {
        Err(ValidationError::ImageTooLarge { size: d.len() as usize, max_size: MAX_AVATAR_SIZE })
    } else if mime != "image/svg+xml"@ && !magic_bytes_ok(d, mime) {
        Err(ValidationError::InvalidImageFormat)
    } else {
        Ok(())
    }
}

/// Checks decoded avatar bytes of an accepted MIME type.
pub fn validate_decoded_avatar(decoded: &[u8], mime_type: &str) -> (r: Result<(), ValidationError>)
    ensures
        r == decoded_avatar_ok(decoded@, mime_type@),
{
    if decoded.len() > MAX_AVATAR_SIZE {
        return Err(ValidationError::ImageTooLarge { size: decoded.len(), max_size: MAX_AVATAR_SIZE });
    }
    if !str_eq(mime_type, "image/svg+xml") {
        match validate_image_magic_bytes(decoded, mime_type) {
            Ok(()) => {},
            Err(_) => return Err(ValidationError::InvalidImageFormat),
        }
    }
    Ok(())
}

/// Checks an uploaded avatar: nothing uploaded is fine; otherwise both the
/// data and an accepted MIME type must be there, the data must be base64
/// and the decoded image must pass `validate_decoded_avatar`.
pub fn validate_avatar_data(avatar_data: &Option<String>, avatar_mime_type: &Option<String>) -> (r: Result<(), ValidationError>)
    ensures
        match (avatar_data, avatar_mime_type) {
            (None, None) => r is Ok,
            (None, Some(_)) => r matches Err(ValidationError::InvalidBase64),
            (Some(_), None) => r matches Err(ValidationError::UnsupportedMimeType(m)) && m@ == "未指定"@,
            (Some(d), Some(m)) => if !accepted_mime(m@) {
                r matches Err(ValidationError::UnsupportedMimeType(x)) && x@ == m@
            } else {
                match base64_standard_decoded(vstd::utf8::encode_utf8(d@)) {
                    None => r matches Err(ValidationError::InvalidBase64),
                    Some(bytes) => r == decoded_avatar_ok(bytes, m@),
                }
            },
        },
{
    let data = match avatar_data {
        None => {
            return match avatar_mime_type {
                None => Ok(()),
                Some(_) => Err(ValidationError::InvalidBase64),
            };
        },
        Some(d) => d,
    };
    let mime = match avatar_mime_type {
        None => return Err(ValidationError::UnsupportedMimeType("未指定".to_owned())),
        Some(m) => m,
    };
    let m = mime.as_str();
    let accepted = str_eq(m, "image/jpeg") || str_eq(m, "image/png") || str_eq(m, "image/gif")
        || str_eq(m, "image/webp") || str_eq(m, "image/bmp") || str_eq(m, "image/svg+xml");
    if !accepted {
        return Err(ValidationError::UnsupportedMimeType(mime.clone()));
    }
    match base64_decode(data.as_str().as_bytes()) {
        Err(_) => Err(ValidationError::InvalidBase64),
        Ok(bytes) => validate_decoded_avatar(bytes.as_slice(), m),
    }
}

} // verus!
