//! Spoofed mobile device profiles: the platform, the OAuth client id bound to
//! it, and the headers that a genuine installation would send.
use crate::calls::{random_below, random_uuid};
use crate::headers::Headers;
use vstd::prelude::*;
use vstd::string::*;

verus! {

/// OAuth client id of the Android application.
pub const ANDROID_CLIENT_ID: &'static str = "ohXpoqrZYub1kg";

/// OAuth client id of the iOS application.
pub const IOS_CLIENT_ID: &'static str = "LNDo9k1o8UAEUw";

/// Names of the headers that profiles and token requests carry.
pub const AUTHORIZATION: &'static str = "Authorization";
pub const USER_AGENT: &'static str = "User-Agent";
pub const VENDOR_ID: &'static str = "Client-Vendor-Id";
pub const DEVICE_ID: &'static str = "X-Reddit-Device-Id";
pub const DEVICE_NAME: &'static str = "Device-Name";
pub const DISPLAY_DENSITY: &'static str = "X-Reddit-DPR";
/// The response header that identifies the device; only the token client stores it.
pub const LOID: &'static str = "x-reddit-loid";

/// User agents of Android builds, one of which an Android profile presents.
pub open spec fn android_user_agents() -> Seq<Seq<char>> {
    seq![
        "Reddit/Version 2023.21.0/Build 956283/Android 13"@,
        "Reddit/Version 2023.21.0/Build 968223/Android 10"@,
        "Reddit/Version 2023.21.0/Build 946732/Android 12"@,
    ]
}

/// User agents of iOS builds, one of which an iOS profile presents.
pub open spec fn ios_user_agents() -> Seq<Seq<char>> {
    seq![
        "Reddit/Version 2023.22.0/Build 613580/iOS Version 17.0 (Build 21A5248V)"@,
        "Reddit/Version 2023.22.0/Build 613580/iOS Version 16.0 (Build 20A5328h)"@,
        "Reddit/Version 2023.22.0/Build 613580/iOS Version 16.5"@,
    ]
}

/// Hardware model codes, one of which an iOS profile presents.
pub open spec fn ios_models() -> Seq<Seq<char>> {
    seq!["iPhone8,1"@, "iPhone11,1"@, "iPhone12,1"@, "iPhone13,1"@, "iPhone14,1"@]
}

/// The Android user agent at `i` in its pool.
pub fn android_user_agent(i: usize) -> (r: &'static str)
    requires
        i < 3,
    ensures
        r@ == android_user_agents()[i as int],
{
    if i == 0 {
        "Reddit/Version 2023.21.0/Build 956283/Android 13"
    } else if i == 1 {
        "Reddit/Version 2023.21.0/Build 968223/Android 10"
    } else {
        "Reddit/Version 2023.21.0/Build 946732/Android 12"
    }
}

/// The iOS user agent at `i` in its pool.
pub fn ios_user_agent(i: usize) -> (r: &'static str)
    requires
        i < 3,
    ensures
        r@ == ios_user_agents()[i as int],
{
    if i == 0 {
        "Reddit/Version 2023.22.0/Build 613580/iOS Version 17.0 (Build 21A5248V)"
    } else if i == 1 {
        "Reddit/Version 2023.22.0/Build 613580/iOS Version 16.0 (Build 20A5328h)"
    } else {
        "Reddit/Version 2023.22.0/Build 613580/iOS Version 16.5"
    }
}

/// The iOS hardware model at `i` in its pool.
pub fn ios_model(i: usize) -> (r: &'static str)
    requires
        i < 5,
    ensures
        r@ == ios_models()[i as int],
{
    if i == 0 {
        "iPhone8,1"
    } else if i == 1 {
        "iPhone11,1"
    } else if i == 2 {
        "iPhone12,1"
    } else if i == 3 {
        "iPhone13,1"
    } else {
        "iPhone14,1"
    }
}

/// The header names differ pairwise.
proof fn lemma_header_names_distinct()
    ensures
        AUTHORIZATION@ != USER_AGENT@,
        AUTHORIZATION@ != VENDOR_ID@,
        AUTHORIZATION@ != DEVICE_ID@,
        AUTHORIZATION@ != DEVICE_NAME@,
        AUTHORIZATION@ != DISPLAY_DENSITY@,
        AUTHORIZATION@ != LOID@,
        USER_AGENT@ != VENDOR_ID@,
        USER_AGENT@ != DEVICE_ID@,
        USER_AGENT@ != DEVICE_NAME@,
        USER_AGENT@ != DISPLAY_DENSITY@,
        USER_AGENT@ != LOID@,
        VENDOR_ID@ != DEVICE_ID@,
        VENDOR_ID@ != DEVICE_NAME@,
        VENDOR_ID@ != DISPLAY_DENSITY@,
        VENDOR_ID@ != LOID@,
        DEVICE_ID@ != DEVICE_NAME@,
        DEVICE_ID@ != DISPLAY_DENSITY@,
        DEVICE_ID@ != LOID@,
        DEVICE_NAME@ != DISPLAY_DENSITY@,
        DEVICE_NAME@ != LOID@,
        DISPLAY_DENSITY@ != LOID@,
{
    reveal_strlit("Authorization");
    reveal_strlit("User-Agent");
    reveal_strlit("Client-Vendor-Id");
    reveal_strlit("X-Reddit-Device-Id");
    reveal_strlit("Device-Name");
    reveal_strlit("X-Reddit-DPR");
    reveal_strlit("x-reddit-loid");
    assert(AUTHORIZATION@.len() == 13);
    assert(USER_AGENT@.len() == 10);
    assert(VENDOR_ID@.len() == 16);
    assert(DEVICE_ID@.len() == 18);
    assert(DEVICE_NAME@.len() == 11);
    assert(DISPLAY_DENSITY@.len() == 12);
    assert(LOID@.len() == 13);
    assert(LOID@[0] != AUTHORIZATION@[0]);
}

/// Both client ids are fourteen characters long.
pub proof fn lemma_client_id_len()
    ensures
        ANDROID_CLIENT_ID@.len() == 14,
        IOS_CLIENT_ID@.len() == 14,
{
    reveal_strlit("ohXpoqrZYub1kg");
    reveal_strlit("LNDo9k1o8UAEUw");
}

/// The mobile platform that a profile imitates.
#[derive(Clone, Copy, Debug, PartialEq, Eq, Structural)]
pub enum Platform {
    Android,
    Ios,
}

/// The headers of an Android profile with identifier `id` and user agent `agent`.
pub open spec fn android_headers(id: Seq<char>, agent: Seq<char>) -> Map<Seq<char>, Seq<char>> {
    Map::empty().insert(VENDOR_ID@, id).insert(DEVICE_ID@, id).insert(USER_AGENT@, agent)
}

/// The headers of an iOS profile with identifier `id`, hardware model `model`
/// and user agent `agent`; the display density is fixed at 2.
pub open spec fn ios_headers(id: Seq<char>, model: Seq<char>, agent: Seq<char>) -> Map<
    Seq<char>,
    Seq<char>,
> {
    Map::empty().insert(DISPLAY_DENSITY@, "2"@).insert(DEVICE_NAME@, model).insert(
        DEVICE_ID@,
        id,
    ).insert(VENDOR_ID@, id).insert(USER_AGENT@, agent)
}

/// A profile's platform, client id and headers.
pub ghost struct DeviceView {
    pub platform: Platform,
    pub oauth_id: Seq<char>,
    pub headers: Map<Seq<char>, Seq<char>>,
}

/// The Android profile with identifier `id` and the user agent at index
/// `agent` of its pool.
pub open spec fn android_profile(id: Seq<char>, agent: int) -> DeviceView {
    DeviceView {
        platform: Platform::Android,
        oauth_id: ANDROID_CLIENT_ID@,
        headers: android_headers(id, android_user_agents()[agent]),
    }
}

/// The iOS profile with identifier `id`, and the user agent at index `agent`
/// and hardware model at index `model` of their pools.
pub open spec fn ios_profile(id: Seq<char>, agent: int, model: int) -> DeviceView {
    DeviceView {
        platform: Platform::Ios,
        oauth_id: IOS_CLIENT_ID@,
        headers: ios_headers(id, ios_models()[model], ios_user_agents()[agent]),
    }
}

/// What every profile satisfies: one identifier under both the device id and
/// the vendor id, a user agent from the platform's own pool, the client id of
/// that platform, exactly the platform's header names (three on Android;
/// five on iOS, with a hardware model from the pool and display density 2),
/// and so neither `Authorization` nor the device echo header.
pub open spec fn valid_profile(d: DeviceView) -> bool {
    &&& d.headers.contains_key(DEVICE_ID@)
    &&& d.headers.contains_key(VENDOR_ID@)
    &&& d.headers[VENDOR_ID@] == d.headers[DEVICE_ID@]
    &&& d.headers.contains_key(USER_AGENT@)
    &&& !d.headers.contains_key(AUTHORIZATION@)
    &&& !d.headers.contains_key(LOID@)
    &&& match d.platform {
        Platform::Android => {
            &&& d.oauth_id == ANDROID_CLIENT_ID@
            &&& android_user_agents().contains(d.headers[USER_AGENT@])
            &&& d.headers.dom() == set![VENDOR_ID@, DEVICE_ID@, USER_AGENT@]
            &&& d.headers.dom().len() == 3
        },
        Platform::Ios => {
            &&& d.oauth_id == IOS_CLIENT_ID@
            &&& ios_user_agents().contains(d.headers[USER_AGENT@])
            &&& ios_models().contains(d.headers[DEVICE_NAME@])
            &&& d.headers[DISPLAY_DENSITY@] == "2"@
            &&& d.headers.dom() == set![
                DISPLAY_DENSITY@,
                DEVICE_NAME@,
                DEVICE_ID@,
                VENDOR_ID@,
                USER_AGENT@,
            ]
            &&& d.headers.dom().len() == 5
        },
    }
}

/// A spoofed device profile.
pub struct Device {
    platform: Platform,
    oauth_id: String,
    headers: Headers,
}

impl View for Device {
    type V = DeviceView;

    closed spec fn view(&self) -> DeviceView {
        DeviceView { platform: self.platform, oauth_id: self.oauth_id@, headers: self.headers@ }
    }
}

impl Device {
    pub closed spec fn headers_wf(&self) -> bool {
        self.headers.wf()
    }

    pub open spec fn wf(&self) -> bool {
        self.headers_wf() && valid_profile(self@)
    }

    /// The Android profile with identifier `id` and the user agent at `agent` in its pool.
    pub fn android_from(id: String, agent: usize) -> (r: Device)
        requires
            agent < 3,
        ensures
            r.wf(),
            r@ == android_profile(id@, agent as int),
    {
        let mut headers = Headers::new();
        headers.insert(String::from_str(VENDOR_ID), id.clone());
        headers.insert(String::from_str(DEVICE_ID), id);
        headers.insert(String::from_str(USER_AGENT), String::from_str(android_user_agent(agent)));
        proof {
            lemma_header_names_distinct();
            assert(android_user_agents().contains(android_user_agents()[agent as int]));
            assert(headers@.dom() =~= set![VENDOR_ID@, DEVICE_ID@, USER_AGENT@]);
        }
        Device { platform: Platform::Android, oauth_id: String::from_str(ANDROID_CLIENT_ID), headers }
    }

    /// The iOS profile with identifier `id`, the user agent at `agent` and the
    /// hardware model at `model` in their pools.
    pub fn ios_from(id: String, agent: usize, model: usize) -> (r: Device)
        requires
            agent < 3,
            model < 5,
        ensures
            r.wf(),
            r@ == ios_profile(id@, agent as int, model as int),
    {
        let mut headers = Headers::new();
        headers.insert(String::from_str(DISPLAY_DENSITY), String::from_str("2"));
        headers.insert(String::from_str(DEVICE_NAME), String::from_str(ios_model(model)));
        headers.insert(String::from_str(DEVICE_ID), id.clone());
        headers.insert(String::from_str(VENDOR_ID), id);
        headers.insert(String::from_str(USER_AGENT), String::from_str(ios_user_agent(agent)));
        proof {
            lemma_header_names_distinct();
            assert(ios_user_agents().contains(ios_user_agents()[agent as int]));
            assert(ios_models().contains(ios_models()[model as int]));
            assert(headers@.dom() =~= set![
                DISPLAY_DENSITY@,
                DEVICE_NAME@,
                DEVICE_ID@,
                VENDOR_ID@,
                USER_AGENT@,
            ]);
        }
        Device { platform: Platform::Ios, oauth_id: String::from_str(IOS_CLIENT_ID), headers }
    }

    /// A fresh Android profile: a new random identifier and a random user agent.
    pub fn android() -> (r: Device)
        ensures
            r.wf(),
            exists|id: Seq<char>, agent: int|
                id.len() == 36 && 0 <= agent < 3 && r@ == #[trigger] android_profile(id, agent),
    {
        let id = random_uuid();
        let agent = random_below(3);
        let r = Device::android_from(id, agent);
        assert(r@ == android_profile(id@, agent as int));
        r
    }

    /// A fresh iOS profile: a new random identifier, a random user agent and a
    /// random hardware model.
    pub fn ios() -> (r: Device)
        ensures
            r.wf(),
            exists|id: Seq<char>, agent: int, model: int|
                id.len() == 36 && 0 <= agent < 3 && 0 <= model < 5 && r@ == #[trigger] ios_profile(
                    id,
                    agent,
                    model,
                ),
    {
        let id = random_uuid();
        let agent = random_below(3);
        let model = random_below(5);
        let r = Device::ios_from(id, agent, model);
        assert(r@ == ios_profile(id@, agent as int, model as int));
        r
    }

    /// A fresh profile of a platform chosen at random.
    pub fn random() -> (r: Device)
        ensures
            r.wf(),
            (exists|id: Seq<char>, agent: int|
                id.len() == 36 && 0 <= agent < 3 && r@ == #[trigger] android_profile(id, agent))
                || (exists|id: Seq<char>, agent: int, model: int|
                id.len() == 36 && 0 <= agent < 3 && 0 <= model < 5 && r@ == #[trigger] ios_profile(
                    id,
                    agent,
                    model,
                )),
    {
        if fastrand::bool() {
            Device::android()
        } else {
            Device::ios()
        }
    }

    pub fn platform(&self) -> (r: Platform)
        ensures
            r == self@.platform,
    {
        self.platform
    }

    pub fn oauth_id(&self) -> (r: &String)
        ensures
            r@ == self@.oauth_id,
    {
        &self.oauth_id
    }

    pub fn headers(&self) -> (r: &Headers)
        requires
            self.wf(),
        ensures
            r.wf(),
            r@ == self@.headers,
    {
        &self.headers
    }
}

} // verus!
