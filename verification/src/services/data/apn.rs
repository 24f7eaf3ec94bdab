//! Access point names.

use vstd::prelude::*;

verus! {

/// The access point name to connect through.
#[derive(Debug, Clone, Copy, PartialEq, Eq)]
pub enum Apn<'a> {
    Given(&'a str),
    Automatic,
}

impl<'a> Default for Apn<'a> {
    fn default() -> (r: Self)
        ensures
            r == Apn::Automatic,
    {
        Apn::Automatic
    }
}

/// An access point name with its credentials.
#[derive(Debug, Clone, Copy, PartialEq, Eq)]
pub struct APNInfo<'a> {
    pub apn: Apn<'a>,
    pub user_name: Option<&'a str>,
    pub password: Option<&'a str>,
}

impl<'a> Default for APNInfo<'a> {
    fn default() -> (r: Self)
        ensures
            r.apn == Apn::Automatic,
            r.user_name is None,
            r.password is None,
    {
        APNInfo { apn: Apn::Automatic, user_name: None, password: None }
    }
}

impl<'a> APNInfo<'a> {
    /// The access point `apn`, without credentials.
    pub fn new(apn: &'a str) -> (r: Self)
        ensures
            r.apn == Apn::Given(apn),
            r.user_name is None,
            r.password is None,
    {
        APNInfo { apn: Apn::Given(apn), user_name: None, password: None }
    }
}

} // verus!
