//! SSL/TLS certificates and security profiles.

use crate::services::data::ssl::SecurityProfileId;
use super::at::{at_line, at_text, decimal_text, push_decimal, push_quoted, quoted};
use super::{at_body, body_of, num_field, number_field, optional_string, read_optional_string, read_required_string, required_string};
use crate::registration::text_of;
use crate::text::{chars_of_bytes, fields, latin1, split_fields};
use vstd::prelude::*;

verus! {

/// The type of a certificate, private key or PSK (`<type>` of `+USECMNG`).
#[derive(Debug, Clone, Copy, PartialEq, Eq, Structural)]
pub enum SecurityDataType {
    TrustedRootCA,
    ClientCertificate,
    ClientPrivateKey,
    ServerCertificate,
    SignatureVerificationCertificate,
    SignatureVerificationPublicKey,
}

impl SecurityDataType {
    /// The number that stands for the type in a command.
    pub open spec fn spec_value(self) -> u8 {
        match self {
            SecurityDataType::TrustedRootCA => 0,
            SecurityDataType::ClientCertificate => 1,
            SecurityDataType::ClientPrivateKey => 2,
            SecurityDataType::ServerCertificate => 3,
            SecurityDataType::SignatureVerificationCertificate => 4,
            SecurityDataType::SignatureVerificationPublicKey => 5,
        }
    }

    /// The number that stands for the type in a command.
    pub fn value(&self) -> (r: u8)
        ensures
            r == self.spec_value(),
    {
        match self {
            SecurityDataType::TrustedRootCA => 0,
            SecurityDataType::ClientCertificate => 1,
            SecurityDataType::ClientPrivateKey => 2,
            SecurityDataType::ServerCertificate => 3,
            SecurityDataType::SignatureVerificationCertificate => 4,
            SecurityDataType::SignatureVerificationPublicKey => 5,
        }
    }
}

/// How the server certificate is checked (`+USECPRF` operation 0).
#[derive(Debug, Clone, Copy, PartialEq, Eq, Structural)]
pub enum CertificateValidationLevel {
    NoValidation,
    RootCertValidationWithoutUrlIntegrityCheck,
    RootCertValidationWithUrlIntegrityCheck,
    RootCertValidationWithValidityDate,
}

impl CertificateValidationLevel {
    /// The number that stands for the level in a command.
    pub open spec fn spec_value(self) -> u8 {
        match self {
            CertificateValidationLevel::NoValidation => 0,
            CertificateValidationLevel::RootCertValidationWithoutUrlIntegrityCheck => 1,
            CertificateValidationLevel::RootCertValidationWithUrlIntegrityCheck => 2,
            CertificateValidationLevel::RootCertValidationWithValidityDate => 3,
        }
    }

    /// The number that stands for the level in a command.
    pub fn value(&self) -> (r: u8)
        ensures
            r == self.spec_value(),
    {
        match self {
            CertificateValidationLevel::NoValidation => 0,
            CertificateValidationLevel::RootCertValidationWithoutUrlIntegrityCheck => 1,
            CertificateValidationLevel::RootCertValidationWithUrlIntegrityCheck => 2,
            CertificateValidationLevel::RootCertValidationWithValidityDate => 3,
        }
    }
}

/// A setting of a security profile (`+USECPRF`), with its value.
#[derive(Debug, Clone, PartialEq, Eq)]
pub enum SecurityProfileOperation {
    /// Operation 0: how the server certificate is checked.
    CertificateValidationLevel(CertificateValidationLevel),
    /// Operation 2: the cipher suite (0: chosen automatically).
    CipherSuite(u8),
    /// Operation 3: the name of the trusted root certificate.
    TrustedRootCertificateInternalName(String),
    /// Operation 4: the host name that the server certificate must name.
    ExpectedServerHostname(String),
    /// Operation 5: the name of the client certificate.
    ClientCertificateInternalName(String),
    /// Operation 6: the name of the client private key.
    ClientPrivateKeyInternalName(String),
    /// Operation 7: the password of the client private key.
    ClientPrivateKeyPassword(String),
}

impl SecurityProfileOperation {
    /// The arguments that write the setting: its operation code, then its value.
    pub open spec fn spec_args(&self) -> Seq<Seq<char>> {
        match self {
            SecurityProfileOperation::CertificateValidationLevel(l) => seq![decimal_text(0), decimal_text(l.spec_value() as nat)],
            SecurityProfileOperation::CipherSuite(c) => seq![decimal_text(2), decimal_text(*c as nat)],
            SecurityProfileOperation::TrustedRootCertificateInternalName(t) => seq![decimal_text(3), quoted(t@)],
            SecurityProfileOperation::ExpectedServerHostname(t) => seq![decimal_text(4), quoted(t@)],
            SecurityProfileOperation::ClientCertificateInternalName(t) => seq![decimal_text(5), quoted(t@)],
            SecurityProfileOperation::ClientPrivateKeyInternalName(t) => seq![decimal_text(6), quoted(t@)],
            SecurityProfileOperation::ClientPrivateKeyPassword(t) => seq![decimal_text(7), quoted(t@)],
        }
    }

    /// Append the arguments that write the setting to `args`.
    pub fn push_args(&self, args: &mut Vec<Vec<char>>)
        ensures
            final(args)@.map_values(|a: Vec<char>| a@) == old(args)@.map_values(|a: Vec<char>| a@) + self.spec_args(),
    {
        let mut op: Vec<char> = Vec::new();
        let mut value: Vec<char> = Vec::new();
        match self {
            SecurityProfileOperation::CertificateValidationLevel(l) => {
                push_decimal(&mut op, 0);
                push_decimal(&mut value, l.value() as u128);
            },
            SecurityProfileOperation::CipherSuite(c) => {
                push_decimal(&mut op, 2);
                push_decimal(&mut value, *c as u128);
            },
            SecurityProfileOperation::TrustedRootCertificateInternalName(t) => {
                push_decimal(&mut op, 3);
                push_quoted(&mut value, t.as_str());
            },
            SecurityProfileOperation::ExpectedServerHostname(t) => {
                push_decimal(&mut op, 4);
                push_quoted(&mut value, t.as_str());
            },
            SecurityProfileOperation::ClientCertificateInternalName(t) => {
                push_decimal(&mut op, 5);
                push_quoted(&mut value, t.as_str());
            },
            SecurityProfileOperation::ClientPrivateKeyInternalName(t) => {
                push_decimal(&mut op, 6);
                push_quoted(&mut value, t.as_str());
            },
            SecurityProfileOperation::ClientPrivateKeyPassword(t) => {
                push_decimal(&mut op, 7);
                push_quoted(&mut value, t.as_str());
            },
        }
        let ghost before = args@.map_values(|a: Vec<char>| a@);
        let ghost op_view = op@;
        let ghost value_view = value@;
        args.push(op);
        args.push(value);
        proof {
            assert(self.spec_args() =~= seq![op_view, value_view]);
            assert(args@.map_values(|a: Vec<char>| a@) =~= before + self.spec_args());
        }
    }
}

/// 26.1.1 Import a certificate, private key or PSK +USECMNG=0
#[derive(Debug, Clone, Copy, PartialEq, Eq)]
pub struct PrepareSecurityDataImport<'a> {
    pub data_type: SecurityDataType,
    pub internal_name: &'a str,
    pub data_size: usize,
    pub password: Option<&'a str>,
}

/// 26.1.1 Remove a certificate, private key or PSK +USECMNG=2
#[derive(Debug, Clone, Copy, PartialEq, Eq)]
pub struct DeleteSecurityData<'a> {
    pub data_type: SecurityDataType,
    pub internal_name: &'a str,
}

/// 26.1.1 List the certificates, private keys and PSKs +USECMNG=3
#[derive(Debug, Clone, Copy, PartialEq, Eq, Structural)]
pub struct ListSecurityData;

/// 26.1.1 The MD5 of a certificate, private key or PSK +USECMNG=4
#[derive(Debug, Clone, Copy, PartialEq, Eq)]
pub struct RetrieveSecurityMd5<'a> {
    pub data_type: SecurityDataType,
    pub internal_name: &'a str,
}

/// 26.1.2 SSL/TLS security layer profile manager +USECPRF: without an
/// operation, the profile is reset to its factory settings.
#[derive(Debug, Clone, PartialEq, Eq)]
pub struct SecurityProfileManager {
    pub profile_id: SecurityProfileId,
    pub operation: Option<SecurityProfileOperation>,
}

impl<'a> PrepareSecurityDataImport<'a> {
    /// The arguments of the command, as they are written on the command line (an absent trailing argument is left out).
    pub open spec fn spec_args(&self) -> Seq<Seq<char>> {
        seq![decimal_text(self.data_type.spec_value() as nat), quoted(self.internal_name@), decimal_text(self.data_size as nat)] + match self.password {
            Some(v) => seq![quoted(v@)],
            None => Seq::empty(),
        }
    }

    /// The command line: `AT+USECMNG=0,` with its arguments.
    pub fn to_text(&self) -> (r: Vec<char>)
        ensures
            r@ == at_text("+USECMNG=0,"@, self.spec_args(), false),
    {
        let mut args: Vec<Vec<char>> = Vec::new();
        let mut a: Vec<char> = Vec::new();
        push_decimal(&mut a, self.data_type.value() as u128);
        args.push(a);
        let mut a: Vec<char> = Vec::new();
        push_quoted(&mut a, self.internal_name);
        args.push(a);
        let mut a: Vec<char> = Vec::new();
        push_decimal(&mut a, self.data_size as u128);
        args.push(a);
        match self.password {
            Some(v) => {
            let mut a: Vec<char> = Vec::new();
            push_quoted(&mut a, v);
            args.push(a);
            },
            None => {},
        }
        proof {
            assert(args@.map_values(|a: Vec<char>| a@) =~= self.spec_args());
        }
        at_line("+USECMNG=0,", &args, false)
    }
}

impl<'a> DeleteSecurityData<'a> {
    /// The arguments of the command, as they are written on the command line.
    pub open spec fn spec_args(&self) -> Seq<Seq<char>> {
        seq![decimal_text(self.data_type.spec_value() as nat), quoted(self.internal_name@)]
    }

    /// The command line: `AT+USECMNG=2,` with its arguments.
    pub fn to_text(&self) -> (r: Vec<char>)
        ensures
            r@ == at_text("+USECMNG=2,"@, self.spec_args(), false),
    {
        let mut args: Vec<Vec<char>> = Vec::new();
        let mut a: Vec<char> = Vec::new();
        push_decimal(&mut a, self.data_type.value() as u128);
        args.push(a);
        let mut a: Vec<char> = Vec::new();
        push_quoted(&mut a, self.internal_name);
        args.push(a);
        proof {
            assert(args@.map_values(|a: Vec<char>| a@) =~= self.spec_args());
        }
        at_line("+USECMNG=2,", &args, false)
    }
}

impl ListSecurityData {
    /// The arguments of the command, as they are written on the command line.
    pub open spec fn spec_args(&self) -> Seq<Seq<char>> {
        Seq::empty()
    }

    /// The command line: `AT+USECMNG=3`.
    pub fn to_text(&self) -> (r: Vec<char>)
        ensures
            r@ == at_text("+USECMNG=3"@, self.spec_args(), false),
    {
        let mut args: Vec<Vec<char>> = Vec::new();
        proof {
            assert(args@.map_values(|a: Vec<char>| a@) =~= self.spec_args());
        }
        at_line("+USECMNG=3", &args, false)
    }
}

impl<'a> RetrieveSecurityMd5<'a> {
    /// The arguments of the command, as they are written on the command line.
    pub open spec fn spec_args(&self) -> Seq<Seq<char>> {
        seq![decimal_text(self.data_type.spec_value() as nat), quoted(self.internal_name@)]
    }

    /// The command line: `AT+USECMNG=4,` with its arguments.
    pub fn to_text(&self) -> (r: Vec<char>)
        ensures
            r@ == at_text("+USECMNG=4,"@, self.spec_args(), false),
    {
        let mut args: Vec<Vec<char>> = Vec::new();
        let mut a: Vec<char> = Vec::new();
        push_decimal(&mut a, self.data_type.value() as u128);
        args.push(a);
        let mut a: Vec<char> = Vec::new();
        push_quoted(&mut a, self.internal_name);
        args.push(a);
        proof {
            assert(args@.map_values(|a: Vec<char>| a@) =~= self.spec_args());
        }
        at_line("+USECMNG=4,", &args, false)
    }
}

impl SecurityProfileManager {
    /// The arguments of the command, as they are written on the command line (an absent operation is left out).
    pub open spec fn spec_args(&self) -> Seq<Seq<char>> {
        seq![decimal_text(self.profile_id.0 as nat)] + match self.operation {
            Some(op) => op.spec_args(),
            None => Seq::empty(),
        }
    }

    /// The command line: `AT+USECPRF` with its arguments.
    pub fn to_text(&self) -> (r: Vec<char>)
        ensures
            r@ == at_text("+USECPRF"@, self.spec_args(), true),
    {
        let mut args: Vec<Vec<char>> = Vec::new();
        let mut a: Vec<char> = Vec::new();
        push_decimal(&mut a, self.profile_id.0 as u128);
        args.push(a);
        proof {
            assert(args@.map_values(|a: Vec<char>| a@) =~= seq![decimal_text(self.profile_id.0 as nat)]);
        }
        match &self.operation {
            Some(op) => {
                op.push_args(&mut args);
            },
            None => {},
        }
        proof {
            assert(args@.map_values(|a: Vec<char>| a@) =~= self.spec_args());
        }
        at_line("+USECPRF", &args, true)
    }
}

/// 26.1.1 The data of an import announced by [PrepareSecurityDataImport]:
/// sent as it is, without a command name or a line ending.
#[derive(Debug, Clone, Copy, PartialEq, Eq)]
pub struct SendSecurityDataImport<'a> {
    pub data: &'a [u8],
}

impl<'a> SendSecurityDataImport<'a> {
    /// What is sent: the data itself, of at most 2048 bytes.
    pub fn to_bytes(&self) -> (r: Vec<u8>)
        requires
            self.data@.len() <= 2048,
        ensures
            r@ == self.data@,
    {
        let mut r: Vec<u8> = Vec::new();
        let mut i: usize = 0;
        while i < self.data.len()
            invariant
                0 <= i <= self.data@.len(),
                r@ == self.data@.subrange(0, i as int),
            decreases self.data@.len() - i,
        {
            r.push(self.data[i]);
            proof {
                assert(self.data@.subrange(0, i + 1) =~= self.data@.subrange(0, i as int).push(self.data@[i as int]));
            }
            i = i + 1;
        }
        assert(self.data@.subrange(0, self.data@.len() as int) =~= self.data@);
        r
    }
}

/// 26.1.1 The answer to an import: the operation, the type of the data, its
/// name (at most 200 characters) and its MD5 (at most 32 characters).
#[derive(Debug, Clone, PartialEq, Eq)]
pub struct SecurityDataImport {
    pub op_code: u8,
    pub data_type: u8,
    pub internal_name: String,
    pub md5_string: String,
}

/// What the value text `body` of a `+USECMNG` import answer reports, if it
/// is well formed: 4 comma separated fields, the operation and the type as
/// decimal numbers of at most 255, then the name and the MD5 as strings.
pub open spec fn security_import_of(body: Seq<char>) -> Option<(u8, u8, Seq<char>, Seq<char>)> {
    let fs = fields(body);
    if fs.len() == 4 {
        match (num_field(body, 0, 255), num_field(body, 1, 255), required_string(fs, 2, 200), required_string(fs, 3, 32)) {
            (Some(op), Some(ty), Some(name), Some(md5)) => Some((op as u8, ty as u8, name, md5)),
            _ => None,
        }
    } else {
        None
    }
}

impl SecurityDataImport {
    /// What the answer `resp` (`+USECMNG: <op>,<type>,"<name>","<md5>"`) reports, if it is well formed.
    pub fn parse(resp: &[u8]) -> (r: Option<Self>)
        ensures
            match security_import_of(at_body(latin1(resp@))) {
                Some((op, ty, name, md5)) => r matches Some(v) && v.op_code == op && v.data_type == ty
                    && v.internal_name@ == name && v.md5_string@ == md5,
                None => r is None,
            },
    {
        let c = chars_of_bytes(resp);
        let body = body_of(c.as_slice());
        let f = split_fields(body.as_slice());
        proof {
            assert(f@.map_values(|a: Vec<char>| a@) =~= fields(body@));
        }
        if f.len() != 4 {
            return None;
        }
        let op = match number_field(&f, 0, 255) {
            Some(v) => v,
            None => {
                return None;
            },
        };
        let ty = match number_field(&f, 1, 255) {
            Some(v) => v,
            None => {
                return None;
            },
        };
        let name = match read_required_string(&f, 2, 200) {
            Some(v) => v,
            None => {
                return None;
            },
        };
        let md5 = match read_required_string(&f, 3, 32) {
            Some(v) => v,
            None => {
                return None;
            },
        };
        Some(SecurityDataImport { op_code: op as u8, data_type: ty as u8, internal_name: name, md5_string: md5 })
    }
}

/// 26.1.1 A listed certificate, private key or PSK: its type (at most 2
/// characters), its name (at most 200), and, for certificates, the common
/// name and the expiration date (at most 100 each).
#[derive(Debug, Clone, PartialEq, Eq)]
pub struct SecurityData {
    pub cert_type: String,
    pub internal_name: String,
    pub common_name: Option<String>,
    pub expiration_date: Option<String>,
}

/// What the value text `body` of a line of the `+USECMNG` list reports, if
/// it is well formed: 2 to 4 comma separated fields, the type and the name
/// as strings, then optionally the common name and the expiration date.
pub open spec fn security_data_of(body: Seq<char>) -> Option<
    (Seq<char>, Seq<char>, Option<Seq<char>>, Option<Seq<char>>),
> {
    let fs = fields(body);
    if 2 <= fs.len() <= 4 {
        match (
            required_string(fs, 0, 2),
            required_string(fs, 1, 200),
            optional_string(fs, 2, 100),
            optional_string(fs, 3, 100),
        ) {
            (Some(ty), Some(name), Some(cn), Some(exp)) => Some((ty, name, cn, exp)),
            _ => None,
        }
    } else {
        None
    }
}

impl SecurityData {
    /// What the line `resp` of the list reports, if it is well formed.
    pub fn parse(resp: &[u8]) -> (r: Option<Self>)
        ensures
            match security_data_of(at_body(latin1(resp@))) {
                Some((ty, name, cn, exp)) => r matches Some(v) && v.cert_type@ == ty && v.internal_name@ == name
                    && text_of(v.common_name) == cn && text_of(v.expiration_date) == exp,
                None => r is None,
            },
    {
        let c = chars_of_bytes(resp);
        let body = body_of(c.as_slice());
        let f = split_fields(body.as_slice());
        proof {
            assert(f@.map_values(|a: Vec<char>| a@) =~= fields(body@));
        }
        if f.len() < 2 || f.len() > 4 {
            return None;
        }
        let ty = match read_required_string(&f, 0, 2) {
            Some(v) => v,
            None => {
                return None;
            },
        };
        let name = match read_required_string(&f, 1, 200) {
            Some(v) => v,
            None => {
                return None;
            },
        };
        let cn = match read_optional_string(&f, 2, 100) {
            Some(v) => v,
            None => {
                return None;
            },
        };
        let exp = match read_optional_string(&f, 3, 100) {
            Some(v) => v,
            None => {
                return None;
            },
        };
        Some(SecurityData { cert_type: ty, internal_name: name, common_name: cn, expiration_date: exp })
    }
}

} // verus!
