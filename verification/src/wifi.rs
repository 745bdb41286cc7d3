//! The radio's data: access points, credentials and the client
//! configuration, and the search of a scan for the configured network.

use vstd::prelude::*;
use vstd::string::StringExecFns;
use vstd::utf8::encode_utf8;

verus! {

/// How an access point authenticates its clients.
#[derive(Clone, Copy, Debug, PartialEq, Eq, Structural)]
pub enum AuthMethod {
    /// No authentication: an open network.
    Open,
    WEP,
    WPA,
    WPA2Personal,
    WPAWPA2Personal,
    WPA2Enterprise,
    WPA3Personal,
    WPA2WPA3Personal,
    WAPIPersonal,
}

impl Default for AuthMethod {
    fn default() -> (method: AuthMethod)
        ensures
            method == AuthMethod::WPA2Personal,
    {
        AuthMethod::WPA2Personal
    }
}

/// The authentication method to configure for a scanned access point: the
/// one it announced, or WPA2 Personal where it announced none.
pub open spec fn auth_or_default(auth_method: Option<AuthMethod>) -> AuthMethod {
    match auth_method {
        Some(method) => method,
        None => AuthMethod::WPA2Personal,
    }
}

/// One access point, as a scan reports it.
#[derive(Debug, PartialEq, Eq)]
pub struct AccessPointInfo {
    pub ssid: String,
    pub bssid: [u8; 6],
    pub channel: u8,
    pub signal_strength: i8,
    pub auth_method: Option<AuthMethod>,
}

/// An access point as specifications see it.
pub struct AccessPointView {
    pub ssid: Seq<char>,
    pub bssid: [u8; 6],
    pub channel: u8,
    pub signal_strength: i8,
    pub auth_method: Option<AuthMethod>,
}

impl View for AccessPointInfo {
    type V = AccessPointView;

    open spec fn view(&self) -> AccessPointView {
        AccessPointView {
            ssid: self.ssid@,
            bssid: self.bssid,
            channel: self.channel,
            signal_strength: self.signal_strength,
            auth_method: self.auth_method,
        }
    }
}

impl Clone for AccessPointInfo {
    fn clone(&self) -> (copy: AccessPointInfo)
        ensures
            copy@ == self@,
    {
        AccessPointInfo {
            ssid: self.ssid.clone(),
            bssid: self.bssid,
            channel: self.channel,
            signal_strength: self.signal_strength,
            auth_method: self.auth_method,
        }
    }
}

/// The access points of a scan as specifications see them.
pub open spec fn scan_view(aps: Seq<AccessPointInfo>) -> Seq<AccessPointView> {
    Seq::new(aps.len(), |i: int| aps[i]@)
}

/// The index of the first access point of the scan whose network
/// identifier is exactly `ssid`, if there is one.
pub open spec fn find_ssid(aps: Seq<AccessPointView>, ssid: Seq<char>) -> Option<int>
    decreases aps.len(),
{
    if aps.len() == 0 {
        None
    } else {
        match find_ssid(aps.drop_last(), ssid) {
            Some(i) => Some(i),
            None => if aps.last().ssid == ssid {
                Some(aps.len() - 1)
            } else {
                None
            },
        }
    }
}

/// What `find_ssid` finds is the first match: an index into the scan at
/// which the identifier is `ssid` and before which it never is. It finds
/// nothing exactly when no access point of the scan has that identifier.
pub proof fn lemma_find_ssid(aps: Seq<AccessPointView>, ssid: Seq<char>)
    ensures
        match find_ssid(aps, ssid) {
            Some(i) => {
                &&& 0 <= i < aps.len()
                &&& aps[i].ssid == ssid
                &&& forall|j: int| 0 <= j < i ==> (#[trigger] aps[j]).ssid != ssid
            },
            None => forall|j: int| 0 <= j < aps.len() ==> (#[trigger] aps[j]).ssid != ssid,
        },
    decreases aps.len(),
{
    if aps.len() > 0 {
        let rest = aps.drop_last();
        lemma_find_ssid(rest, ssid);
        match find_ssid(rest, ssid) {
            Some(i) => {
                assert(aps[i] == rest[i]);
                assert forall|j: int| 0 <= j < i implies (#[trigger] aps[j]).ssid != ssid by {
                    assert(aps[j] == rest[j]);
                }
            },
            None => {
                assert forall|j: int| 0 <= j < aps.len() - 1 implies (#[trigger] aps[j]).ssid
                    != ssid by {
                    assert(aps[j] == rest[j]);
                }
            },
        }
    }
}

/// Why a network could not be joined.
#[derive(Clone, Copy, Debug, PartialEq, Eq, Structural)]
pub enum WifiError {
    /// No access point of the scan has the configured identifier.
    SsidNotFound,
    /// The network identifier is longer than 32 bytes.
    SsidTooLong,
    /// The pre-shared key is longer than 64 bytes.
    PasswordTooLong,
}

impl WifiError {
    /// The text that describes the error.
    pub fn to_string(&self) -> (text: String)
        ensures
            text@ == (match *self {
                WifiError::SsidNotFound => "couldn't find ssid"@,
                WifiError::SsidTooLong => "ssid is longer than 32 bytes"@,
                WifiError::PasswordTooLong => "password is longer than 64 bytes"@,
            }),
    {
        match self {
            WifiError::SsidNotFound => String::from_str("couldn't find ssid"),
            WifiError::SsidTooLong => String::from_str("ssid is longer than 32 bytes"),
            WifiError::PasswordTooLong => String::from_str("password is longer than 64 bytes"),
        }
    }
}

/// Searches a scan for the configured network: the first access point whose
/// identifier is exactly `ssid`.
pub fn wifi_scan(aps: &Vec<AccessPointInfo>, ssid: &String) -> (r: Result<
    AccessPointInfo,
    WifiError,
>)
    ensures
        match find_ssid(scan_view(aps@), ssid@) {
            Some(i) => r matches Ok(ap) && ap@ == aps@[i]@,
            None => r == Err::<AccessPointInfo, WifiError>(WifiError::SsidNotFound),
        },
{
    let ghost views = scan_view(aps@);
    let mut k: usize = 0;
    while k < aps.len()
        invariant
            k <= aps.len(),
            views == scan_view(aps@),
            find_ssid(views.take(k as int), ssid@) is None,
        decreases aps.len() - k,
    {
        proof {
            assert(views.take(k + 1).drop_last() =~= views.take(k as int));
            assert(views.take(k + 1).last() == aps@[k as int]@);
        }
        if aps[k].ssid == *ssid {
            proof {
                lemma_find_ssid_extends(views.take(k + 1), views, ssid@);
            }
            return Ok(aps[k].clone());
        }
        k = k + 1;
    }
    proof {
        assert(views.take(k as int) =~= views);
    }
    Err(WifiError::SsidNotFound)
}

/// A match found in the first part of a scan is the match of the whole scan.
pub proof fn lemma_find_ssid_extends(
    head: Seq<AccessPointView>,
    aps: Seq<AccessPointView>,
    ssid: Seq<char>,
)
    requires
        head.len() <= aps.len(),
        head == aps.take(head.len() as int),
        find_ssid(head, ssid) is Some,
    ensures
        find_ssid(aps, ssid) == find_ssid(head, ssid),
    decreases aps.len(),
{
    if head.len() < aps.len() {
        let rest = aps.drop_last();
        assert(rest.take(head.len() as int) =~= head);
        lemma_find_ssid_extends(head, rest, ssid);
    } else {
        assert(head =~= aps);
    }
}

/// The longest network identifier, in bytes.
pub const MAX_SSID_BYTES: usize = 32;

/// The longest pre-shared key, in bytes.
pub const MAX_PASSWORD_BYTES: usize = 64;

/// The network to join: its identifier and its pre-shared key.
#[derive(Debug, PartialEq, Eq)]
pub struct Config {
    pub wifi_ssid: String,
    pub wifi_psk: String,
}

/// Credentials as specifications see them.
pub struct ConfigView {
    pub wifi_ssid: Seq<char>,
    pub wifi_psk: Seq<char>,
}

impl View for Config {
    type V = ConfigView;

    open spec fn view(&self) -> ConfigView {
        ConfigView { wifi_ssid: self.wifi_ssid@, wifi_psk: self.wifi_psk@ }
    }
}

/// What is wrong with the credentials, if anything: the identifier is
/// checked before the key.
pub open spec fn credentials_fault(c: ConfigView) -> Option<WifiError> {
    if encode_utf8(c.wifi_ssid).len() > MAX_SSID_BYTES {
        Some(WifiError::SsidTooLong)
    } else if encode_utf8(c.wifi_psk).len() > MAX_PASSWORD_BYTES {
        Some(WifiError::PasswordTooLong)
    } else {
        None
    }
}

impl Clone for Config {
    fn clone(&self) -> (copy: Config)
        ensures
            copy@ == self@,
    {
        Config { wifi_ssid: self.wifi_ssid.clone(), wifi_psk: self.wifi_psk.clone() }
    }
}

impl Config {
    /// Credentials for the network `ssid` with the key `psk`.
    pub fn new(ssid: &str, psk: &str) -> (config: Config)
        ensures
            config@ == (ConfigView { wifi_ssid: ssid@, wifi_psk: psk@ }),
    {
        Config { wifi_ssid: String::from_str(ssid), wifi_psk: String::from_str(psk) }
    }

    /// Checks that the identifier and the key fit the radio's fields.
    pub fn check(&self) -> (r: Result<(), WifiError>)
        ensures
            match credentials_fault(self@) {
                Some(fault) => r == Err::<(), WifiError>(fault),
                None => r is Ok,
            },
    {
        if self.wifi_ssid.as_str().as_bytes().len() > MAX_SSID_BYTES {
            Err(WifiError::SsidTooLong)
        } else if self.wifi_psk.as_str().as_bytes().len() > MAX_PASSWORD_BYTES {
            Err(WifiError::PasswordTooLong)
        } else {
            Ok(())
        }
    }
}

/// How the radio is to join the network.
#[derive(Debug, PartialEq, Eq)]
pub struct ClientConfiguration {
    pub ssid: String,
    pub auth_method: AuthMethod,
    pub password: String,
    /// The channel on which the access point was seen, where it was seen.
    pub channel: Option<u8>,
}

/// A client configuration as specifications see it.
pub struct ClientConfigurationView {
    pub ssid: Seq<char>,
    pub auth_method: AuthMethod,
    pub password: Seq<char>,
    pub channel: Option<u8>,
}

impl View for ClientConfiguration {
    type V = ClientConfigurationView;

    open spec fn view(&self) -> ClientConfigurationView {
        ClientConfigurationView {
            ssid: self.ssid@,
            auth_method: self.auth_method,
            password: self.password@,
            channel: self.channel,
        }
    }
}

/// The configuration that joins the network of `credentials` on the hinted
/// channel with the hinted authentication method.
pub open spec fn client_configuration(
    credentials: ConfigView,
    channel: Option<u8>,
    auth_method: AuthMethod,
) -> ClientConfigurationView {
    ClientConfigurationView {
        ssid: credentials.wifi_ssid,
        auth_method,
        password: credentials.wifi_psk,
        channel,
    }
}

impl ClientConfiguration {
    /// The configuration that joins the network of `credentials` on the
    /// hinted channel with the hinted authentication method.
    pub fn for_network(credentials: &Config, channel: Option<u8>, auth_method: AuthMethod) -> (c:
        ClientConfiguration)
        ensures
            c@ == client_configuration(credentials@, channel, auth_method),
    {
        ClientConfiguration {
            ssid: credentials.wifi_ssid.clone(),
            auth_method,
            password: credentials.wifi_psk.clone(),
            channel,
        }
    }
}

} // verus!
