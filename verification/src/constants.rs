//! The fixed values of the messages API.

use vstd::prelude::*;

verus! {

/// Where the API lives.
pub const ANTHROPIC_URL: &'static str = "https://api.anthropic.com";

/// The path of the messages endpoint under the base URL.
pub const MESSAGES_PATH: &'static str = "/v1/messages";

/// The version of the API that this library speaks.
pub const ANTHROPIC_VERSION: &'static str = "2023-06-01";

/// The image formats that the API takes.
pub const SUPPORT_MEDIA_TYPE: [&'static str; 4] = [
    "image/jpeg",
    "image/png",
    "image/gif",
    "image/webp",
];

} // verus!
