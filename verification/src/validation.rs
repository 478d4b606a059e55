//! Checks of what a charger sends when it is added: its UID and the
//! WireGuard public keys.

use vstd::prelude::*;

use crate::charger_uid::{
    flickr_base58_decode, flickr_base58_decoded, zbase32_decode, zbase32_decoded, ZBASE32_UID_THRESHOLD,
};
use crate::encoding::{base64_decode, base64_decoded};

verus! {

/// Why a field of an add-charger request was refused.
#[derive(Debug, Clone, Copy, PartialEq, Eq)]
pub enum ValidationError {
    /// The key is not standard base64.
    InvalidBase64,
    /// The key does not decode to 32 bytes.
    InvalidKey,
    /// The UID is not Flickr-base58.
    InvalidBase58,
    /// The UID's base58 bytes do not fit in four bytes.
    WrongLength,
}

impl ValidationError {
    /// The code the validator reports for this error.
    pub fn code(&self) -> (s: &'static str)
        ensures
            s@ == validation_error_code(*self),
    {
        match self {
            ValidationError::InvalidBase64 => "Invalid base64 encoding.",
            ValidationError::InvalidKey => "Data is no valid key",
            ValidationError::InvalidBase58 => "Data is no valid base58",
            ValidationError::WrongLength => "Data has wrong length",
        }
    }
}

/// The code of each validation error.
pub open spec fn validation_error_code(e: ValidationError) -> Seq<char> {
    match e {
        ValidationError::InvalidBase64 => "Invalid base64 encoding."@,
        ValidationError::InvalidKey => "Data is no valid key"@,
        ValidationError::InvalidBase58 => "Data is no valid base58"@,
        ValidationError::WrongLength => "Data has wrong length"@,
    }
}

/// The verdict on a WireGuard key string: it must be base64 of 32 bytes.
pub open spec fn wg_key_verdict(key: Seq<char>) -> Result<(), ValidationError> {
    match base64_decoded(key) {
        None => Err(ValidationError::InvalidBase64),
        Some(bytes) => if bytes.len() == 32 {
            Ok(())
        } else {
            Err(ValidationError::InvalidKey)
        },
    }
}

/// The verdict on a charger UID string: a z-base-32 reading above the cutoff
/// is accepted; otherwise it must be Flickr-base58 of at most four bytes.
pub open spec fn charger_id_verdict(id: Seq<char>) -> Result<(), ValidationError> {
    if zbase32_decoded(id) is Some && zbase32_decoded(id)->0 > ZBASE32_UID_THRESHOLD {
        Ok(())
    } else {
        match flickr_base58_decoded(id) {
            None => Err(ValidationError::InvalidBase58),
            Some(bytes) => if bytes.len() > 4 {
                Err(ValidationError::WrongLength)
            } else {
                Ok(())
            },
        }
    }
}

/// The verdict on a key given the bytes its base64 decoding produced (or
/// `None` when decoding failed).
pub fn wg_key_verdict_of_decoding(decoded: Option<Vec<u8>>) -> (r: Result<(), ValidationError>)
    ensures
        r == (match decoded {
            None => Err(ValidationError::InvalidBase64),
            Some(bytes) => if bytes@.len() == 32 {
                Ok(())
            } else {
                Err(ValidationError::InvalidKey)
            },
        }),
{
    match decoded {
        None => Err(ValidationError::InvalidBase64),
        Some(bytes) => {
            if bytes.len() != 32 {
                Err(ValidationError::InvalidKey)
            } else {
                Ok(())
            }
        },
    }
}

/// Check that `key` is a base64 encoded 32 byte WireGuard key.
pub fn validate_wg_key(key: &str) -> (r: Result<(), ValidationError>)
    ensures
        r == wg_key_verdict(key@),
{
    let decoded = base64_decode(key);
    wg_key_verdict_of_decoding(decoded)
}

/// Check a charger UID string the way `decode_charger_uid` reads it.
pub fn validate_charger_id(id: &str) -> (r: Result<(), ValidationError>)
    ensures
        r == charger_id_verdict(id@),
{
    if let Some(value) = zbase32_decode(id) {
        if value > ZBASE32_UID_THRESHOLD {
            return Ok(());
        }
    }
    match flickr_base58_decode(id) {
        None => Err(ValidationError::InvalidBase58),
        Some(bytes) => {
            if bytes.len() > 4 {
                Err(ValidationError::WrongLength)
            } else {
                Ok(())
            }
        },
    }
}

/// One WireGuard key set of an add-charger request. The addresses are kept
/// in their textual network form.
#[derive(Debug, Clone)]
pub struct Keys {
    pub web_private: Vec<u8>,
    pub psk: Vec<u8>,
    pub charger_public: String,
    pub web_address: String,
    pub charger_address: String,
    pub connection_no: u16,
}

/// The charger part of an add-charger request.
#[derive(Debug, Clone)]
pub struct ChargerSchema {
    pub uid: String,
    pub charger_pub: String,
    pub wg_charger_ip: String,
    pub wg_server_ip: String,
    pub psk: String,
}

/// An add-charger request: the charger, five key sets, a name and a note.
#[derive(Debug, Clone)]
pub struct AddChargerSchema {
    pub charger: ChargerSchema,
    pub keys: [Keys; 5],
    pub name: String,
    pub note: String,
}

/// The verdict on a list of keys: the error of the first bad key, if any.
pub open spec fn keys_verdict(keys: Seq<Seq<char>>) -> Result<(), ValidationError>
    decreases keys.len(),
{
    if keys.len() == 0 {
        Ok(())
    } else if wg_key_verdict(keys[0]) is Err {
        wg_key_verdict(keys[0])
    } else {
        keys_verdict(keys.drop_first())
    }
}

/// The public keys of the key sets, in order.
pub open spec fn key_strings(keys: Seq<Keys>) -> Seq<Seq<char>> {
    keys.map_values(|k: Keys| k.charger_public@)
}

/// The verdict on an add-charger request: the five keys in order, then the
/// charger's public key, then its UID; the first refusal is reported.
pub open spec fn add_charger_schema_verdict(schema: AddChargerSchema) -> Result<(), ValidationError> {
    if keys_verdict(key_strings(schema.keys@)) is Err {
        keys_verdict(key_strings(schema.keys@))
    } else if wg_key_verdict(schema.charger.charger_pub@) is Err {
        wg_key_verdict(schema.charger.charger_pub@)
    } else {
        charger_id_verdict(schema.charger.uid@)
    }
}

/// When the first `i` keys pass, the verdict is that of the rest.
pub(crate) proof fn lemma_keys_verdict_skip(keys: Seq<Seq<char>>, i: int)
    requires
        0 <= i <= keys.len(),
        forall|j: int| 0 <= j < i ==> wg_key_verdict(#[trigger] keys[j]) is Ok,
    ensures
        keys_verdict(keys) == keys_verdict(keys.skip(i)),
    decreases i,
{
    if i > 0 {
        let rest = keys.drop_first();
        assert forall|j: int| 0 <= j < i - 1 implies wg_key_verdict(#[trigger] rest[j]) is Ok by {
            assert(rest[j] == keys[j + 1]);
        }
        lemma_keys_verdict_skip(rest, i - 1);
        assert(rest.skip(i - 1) =~= keys.skip(i));
    } else {
        assert(keys.skip(0) =~= keys);
    }
}

/// Check an add-charger request: every key set's public key, the charger's
/// public key and the charger's UID.
pub fn validate_add_charger_schema(schema: &AddChargerSchema) -> (r: Result<(), ValidationError>)
    ensures
        r == add_charger_schema_verdict(*schema),
{
    let ghost ks = key_strings(schema.keys@);
    let mut i: usize = 0;
    while i < 5
        invariant
            i <= 5,
            ks == key_strings(schema.keys@),
            ks.len() == 5,
            forall|j: int| 0 <= j < i ==> wg_key_verdict(#[trigger] ks[j]) is Ok,
        decreases 5 - i,
    {
        let r = validate_wg_key(schema.keys[i].charger_public.as_str());
        if r.is_err() {
            proof {
                lemma_keys_verdict_skip(ks, i as int);
                assert(ks.skip(i as int)[0] == ks[i as int]);
            }
            return r;
        }
        i = i + 1;
    }
    proof {
        lemma_keys_verdict_skip(ks, 5);
        assert(ks.skip(5).len() == 0);
    }
    let r = validate_wg_key(schema.charger.charger_pub.as_str());
    if r.is_err() {
        return r;
    }
    validate_charger_id(schema.charger.uid.as_str())
}

} // verus!
