use vstd::prelude::*;

verus! {

/// The resources the engine asks the embedder for.
#[derive(Clone, Copy, Debug, PartialEq, Eq, Structural)]
pub enum Resource {
    Preferences,
    HstsPreloadList,
    SSLCertificates,
    BadCertHTML,
    NetErrorHTML,
    UserAgentCSS,
    ServoCSS,
    PresentationalHintsCSS,
    QuirksModeCSS,
    RippyPNG,
    DomainList,
    BluetoothBlocklist,
}

/// The file, in the resource directory, that holds each resource.
pub open spec fn resource_file(res: Resource) -> Seq<char> {
    match res {
        Resource::Preferences => "prefs.json"@,
        Resource::HstsPreloadList => "hsts_preload.json"@,
        Resource::SSLCertificates => "certs"@,
        Resource::BadCertHTML => "badcert.html"@,
        Resource::NetErrorHTML => "neterror.html"@,
        Resource::UserAgentCSS => "user-agent.css"@,
        Resource::ServoCSS => "servo.css"@,
        Resource::PresentationalHintsCSS => "presentational-hints.css"@,
        Resource::QuirksModeCSS => "quirks-mode.css"@,
        Resource::RippyPNG => "rippy.png"@,
        Resource::DomainList => "public_domains.txt"@,
        Resource::BluetoothBlocklist => "gatt_blocklist.txt"@,
    }
}

/// The fixed table from resource kinds to the files that hold them.
pub struct ResourceReader;

impl ResourceReader {
    pub fn new() -> (r: ResourceReader) {
        ResourceReader
    }

    /// The name of the file that holds `res`.
    pub fn file_name(&self, res: Resource) -> (r: &'static str)
        ensures
            r@ == resource_file(res),
    {
        match res {
            Resource::Preferences => "prefs.json",
            Resource::HstsPreloadList => "hsts_preload.json",
            Resource::SSLCertificates => "certs",
            Resource::BadCertHTML => "badcert.html",
            Resource::NetErrorHTML => "neterror.html",
            Resource::UserAgentCSS => "user-agent.css",
            Resource::ServoCSS => "servo.css",
            Resource::PresentationalHintsCSS => "presentational-hints.css",
            Resource::QuirksModeCSS => "quirks-mode.css",
            Resource::RippyPNG => "rippy.png",
            Resource::DomainList => "public_domains.txt",
            Resource::BluetoothBlocklist => "gatt_blocklist.txt",
        }
    }
}

} // verus!
