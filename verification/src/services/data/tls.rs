//! TLS connections through a security profile of the module.

use super::ssl::enable_ssl;
pub use super::ssl::SecurityProfileId;
use crate::command::device_data_security::{CertificateValidationLevel, SecurityProfileManager, SecurityProfileOperation};
use vstd::prelude::*;

verus! {

/// Opens TLS connections with the security profile it holds.
#[derive(Debug, Clone, Copy, PartialEq, Eq, Structural)]
pub struct TlsConnector {
    profile_id: SecurityProfileId,
}

impl TlsConnector {
    /// The security profile of the connector.
    pub closed spec fn spec_profile_id(&self) -> SecurityProfileId {
        self.profile_id
    }

    /// A connector that uses the security profile `profile_id`.
    pub fn new(profile_id: SecurityProfileId) -> (r: Self)
        ensures
            r.spec_profile_id() == profile_id,
    {
        TlsConnector { profile_id }
    }

    /// The security profile of the connector.
    pub fn profile_id(&self) -> (r: SecurityProfileId)
        ensures
            r == self.spec_profile_id(),
    {
        self.profile_id
    }

    /// The settings that the connector makes on its profile before a
    /// connection to the server `hostname`, in order: validate the root
    /// certificate and the validity date, choose the cipher suite
    /// automatically, and expect the server's host name.
    pub fn connect_settings(&self, hostname: &str) -> (r: Vec<SecurityProfileManager>)
        ensures
            r@.len() == 3,
            r@[0] == (SecurityProfileManager {
                profile_id: self.spec_profile_id(),
                operation: Some(
                    SecurityProfileOperation::CertificateValidationLevel(
                        CertificateValidationLevel::RootCertValidationWithValidityDate,
                    ),
                ),
            }),
            r@[1] == (SecurityProfileManager {
                profile_id: self.spec_profile_id(),
                operation: Some(SecurityProfileOperation::CipherSuite(0)),
            }),
            r@[2].profile_id == self.spec_profile_id(),
            r@[2].operation matches Some(SecurityProfileOperation::ExpectedServerHostname(h)) && h@ == hostname@,
    {
        enable_ssl(self.profile_id, hostname)
    }
}

} // verus!
