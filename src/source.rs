use vstd::prelude::*;

verus! {

#[verifier::external_type_specification]
#[verifier::external_body]
pub struct ExUrl(url::Url);

/// Where a media input comes from.
#[derive(Debug)]
pub enum Location {
    /// A file on the local file system.
    File(String),
    /// A network resource.
    Network(url::Url),
}

impl Location {
    pub fn from_path(path: String) -> (r: Location)
        ensures
            r == Location::File(path),
    {
        Location::File(path)
    }

    pub fn from_url(url: url::Url) -> (r: Location)
        ensures
            r == Location::Network(url),
    {
        Location::Network(url)
    }

    pub fn is_network(&self) -> (r: bool)
        ensures
            r == (self is Network),
    {
        match self {
            Location::File(_) => false,
            Location::Network(_) => true,
        }
    }
}

/// Key/value options handed to the demuxer when an input is opened.
#[derive(Clone, Debug)]
pub struct Options {
    entries: Vec<(String, String)>,
}

impl View for Options {
    type V = Seq<(String, String)>;

    closed spec fn view(&self) -> Seq<(String, String)> {
        self.entries@
    }
}

impl Options {
    pub fn new() -> (r: Options)
        ensures
            r@ == Seq::<(String, String)>::empty(),
    {
        Options { entries: Vec::new() }
    }

    /// Adds an option; later entries come after earlier ones.
    pub fn set(&mut self, key: String, value: String)
        ensures
            final(self)@ == old(self)@.push((key, value)),
    {
        self.entries.push((key, value));
    }

    pub fn len(&self) -> (r: usize)
        ensures
            r == self@.len(),
    {
        self.entries.len()
    }

    pub fn entry(&self, i: usize) -> (r: &(String, String))
        requires
            i < self@.len(),
        ensures
            *r == self@[i as int],
    {
        &self.entries[i]
    }
}

/// The kinds of hardware decoding device a decoder can be attached to.
#[derive(Clone, Copy, Debug, PartialEq, Eq, Structural)]
pub enum HardwareAccelerationDeviceType {
    Vdpau,
    Cuda,
    VaApi,
    Dxva2,
    Qsv,
    VideoToolbox,
    D3D11Va,
    Drm,
    OpenCl,
    MediaCodec,
}

} // verus!
