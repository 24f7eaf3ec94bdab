//! SSL/TLS on the module's sockets: the certificates and keys that a
//! security profile uses, and the checks it makes of the server.

use crate::command::device_data_security::{
    CertificateValidationLevel, PrepareSecurityDataImport, SecurityDataType, SecurityProfileManager,
    SecurityProfileOperation, SendSecurityDataImport,
};
use vstd::prelude::*;

verus! {

/// The identifier of a security profile of the module.
#[derive(Debug, Clone, Copy, PartialEq, Eq, Structural)]
pub struct SecurityProfileId(pub u8);

/// The commands of an import into the module: announce the data (type,
/// name, size and password), send the data, and name it in the profile.
#[derive(Debug, Clone, PartialEq, Eq)]
pub struct SecurityImport<'a> {
    pub prepare: PrepareSecurityDataImport<'a>,
    pub data: SendSecurityDataImport<'a>,
    pub profile: SecurityProfileManager,
}

/// The import of the client certificate `certificate`, named `name` (of
/// fewer than 200 bytes), for the profile `profile_id`.
pub fn import_certificate<'a>(profile_id: SecurityProfileId, name: &'a str, certificate: &'a [u8]) -> (r: SecurityImport<'a>)
    requires
        name.len() < 200,
    ensures
        r.profile.operation matches Some(SecurityProfileOperation::ClientCertificateInternalName(n)) && n@ == name@,
        r.prepare == (PrepareSecurityDataImport {
            data_type: SecurityDataType::ClientCertificate,
            internal_name: name,
            data_size: certificate@.len() as usize,
            password: None,
        }),
        r.data == (SendSecurityDataImport { data: certificate }),
        r.profile.profile_id == profile_id,
{
    SecurityImport {
        prepare: PrepareSecurityDataImport {
            data_type: SecurityDataType::ClientCertificate,
            internal_name: name,
            data_size: certificate.len(),
            password: None,
        },
        data: SendSecurityDataImport { data: certificate },
        profile: SecurityProfileManager {
            profile_id,
            operation: Some(SecurityProfileOperation::ClientCertificateInternalName(name.to_owned())),
        },
    }
}

/// The import of the trusted root certificate `root_ca`, named `name` (of
/// fewer than 200 bytes), for the profile `profile_id`.
pub fn import_root_ca<'a>(profile_id: SecurityProfileId, name: &'a str, root_ca: &'a [u8]) -> (r: SecurityImport<'a>)
    requires
        name.len() < 200,
    ensures
        r.profile.operation matches Some(SecurityProfileOperation::TrustedRootCertificateInternalName(n)) && n@ == name@,
        r.prepare == (PrepareSecurityDataImport {
            data_type: SecurityDataType::TrustedRootCA,
            internal_name: name,
            data_size: root_ca@.len() as usize,
            password: None,
        }),
        r.data == (SendSecurityDataImport { data: root_ca }),
        r.profile.profile_id == profile_id,
{
    SecurityImport {
        prepare: PrepareSecurityDataImport {
            data_type: SecurityDataType::TrustedRootCA,
            internal_name: name,
            data_size: root_ca.len(),
            password: None,
        },
        data: SendSecurityDataImport { data: root_ca },
        profile: SecurityProfileManager {
            profile_id,
            operation: Some(SecurityProfileOperation::TrustedRootCertificateInternalName(name.to_owned())),
        },
    }
}

/// The import of the client private key `private_key`, named `name` (of
/// fewer than 200 bytes) and protected by `password`, for the profile
/// `profile_id`.
pub fn import_private_key<'a>(
    profile_id: SecurityProfileId,
    name: &'a str,
    private_key: &'a [u8],
    password: Option<&'a str>,
) -> (r: SecurityImport<'a>)
    requires
        name.len() < 200,
    ensures
        r.profile.operation matches Some(SecurityProfileOperation::ClientPrivateKeyInternalName(n)) && n@ == name@,
        r.prepare == (PrepareSecurityDataImport {
            data_type: SecurityDataType::ClientPrivateKey,
            internal_name: name,
            data_size: private_key@.len() as usize,
            password: password,
        }),
        r.data == (SendSecurityDataImport { data: private_key }),
        r.profile.profile_id == profile_id,
{
    SecurityImport {
        prepare: PrepareSecurityDataImport {
            data_type: SecurityDataType::ClientPrivateKey,
            internal_name: name,
            data_size: private_key.len(),
            password,
        },
        data: SendSecurityDataImport { data: private_key },
        profile: SecurityProfileManager {
            profile_id,
            operation: Some(SecurityProfileOperation::ClientPrivateKeyInternalName(name.to_owned())),
        },
    }
}

/// The settings that enable SSL/TLS on the profile `profile_id` for the
/// server `server_hostname`, in order: validate the root certificate and
/// the validity date, choose the cipher suite automatically, and expect
/// the server's host name.
pub fn enable_ssl(profile_id: SecurityProfileId, server_hostname: &str) -> (r: Vec<SecurityProfileManager>)
    ensures
        r@.len() == 3,
        r@[0] == (SecurityProfileManager {
            profile_id,
            operation: Some(
                SecurityProfileOperation::CertificateValidationLevel(
                    CertificateValidationLevel::RootCertValidationWithValidityDate,
                ),
            ),
        }),
        r@[1] == (SecurityProfileManager { profile_id, operation: Some(SecurityProfileOperation::CipherSuite(0)) }),
        r@[2].profile_id == profile_id,
        r@[2].operation matches Some(SecurityProfileOperation::ExpectedServerHostname(h)) && h@ == server_hostname@,
{
    let mut r: Vec<SecurityProfileManager> = Vec::new();
    r.push(
        SecurityProfileManager {
            profile_id,
            operation: Some(
                SecurityProfileOperation::CertificateValidationLevel(
                    CertificateValidationLevel::RootCertValidationWithValidityDate,
                ),
            ),
        },
    );
    r.push(SecurityProfileManager { profile_id, operation: Some(SecurityProfileOperation::CipherSuite(0)) });
    r.push(
        SecurityProfileManager {
            profile_id,
            operation: Some(SecurityProfileOperation::ExpectedServerHostname(server_hostname.to_owned())),
        },
    );
    r
}

} // verus!
