//! Graphics API versions.

use vstd::prelude::*;
use vstd::string::*;

verus! {

/// A graphics API developed by Khronos Group.
pub const OPENGL: &'static str = "OpenGL";

/// A graphics API developed by Khronos Group.
pub const VULKAN: &'static str = "Vulkan";

/// A graphics API developed by Microsoft.
pub const DIRECTX: &'static str = "DirectX";

/// A graphics API developed by Apple.
pub const METAL: &'static str = "Metal";

/// Stores a graphics API version.
#[derive(Clone, Debug, PartialEq, PartialOrd, Eq, Ord)]
pub struct Version {
    /// A string identifying the API.
    pub api: String,
    /// Major version.
    pub major: u32,
    /// Minor version.
    pub minor: u32,
}

impl Version {
    /// Creates a new OpenGL version.
    pub fn opengl(major: u32, minor: u32) -> (r: Version)
        ensures
            r.api@ == OPENGL@,
            r.major == major,
            r.minor == minor,
    {
        Version { api: String::from_str(OPENGL), major, minor }
    }

    /// Creates a new Vulkan version.
    pub fn vulkan(major: u32, minor: u32) -> (r: Version)
        ensures
            r.api@ == VULKAN@,
            r.major == major,
            r.minor == minor,
    {
        Version { api: String::from_str(VULKAN), major, minor }
    }

    /// Creates a new DirectX version.
    pub fn directx(major: u32, minor: u32) -> (r: Version)
        ensures
            r.api@ == DIRECTX@,
            r.major == major,
            r.minor == minor,
    {
        Version { api: String::from_str(DIRECTX), major, minor }
    }

    /// Creates a new Metal version.
    pub fn metal(major: u32, minor: u32) -> (r: Version)
        ensures
            r.api@ == METAL@,
            r.major == major,
            r.minor == minor,
    {
        Version { api: String::from_str(METAL), major, minor }
    }

    /// Returns `true` if the API is OpenGL.
    pub fn is_opengl(&self) -> (r: bool)
        ensures
            r == (self.api@ == OPENGL@),
    {
        self.api == String::from_str(OPENGL)
    }

    /// Returns `true` if the API is Vulkan.
    pub fn is_vulkan(&self) -> (r: bool)
        ensures
            r == (self.api@ == VULKAN@),
    {
        self.api == String::from_str(VULKAN)
    }

    /// Returns `true` if the API is DirectX.
    pub fn is_directx(&self) -> (r: bool)
        ensures
            r == (self.api@ == DIRECTX@),
    {
        self.api == String::from_str(DIRECTX)
    }

    /// Returns `true` if the API is Metal.
    pub fn is_metal(&self) -> (r: bool)
        ensures
            r == (self.api@ == METAL@),
    {
        self.api == String::from_str(METAL)
    }
}

/// An error for when a graphics API is unsupported.
#[derive(Debug)]
pub struct UnsupportedGraphicsApiError {
    /// The requested graphics API.
    pub found: String,
    /// A list of supported graphics APIs.
    pub expected: Vec<String>,
}

/// The text of the error message, over the views of its parts.
pub open spec fn expected_list(expected: Seq<String>) -> Seq<char>
    decreases expected.len(),
{
    if expected.len() == 0 {
        Seq::empty()
    } else {
        expected_list(expected.drop_last()) + expected.last()@ + seq![',', ' ']
    }
}

impl UnsupportedGraphicsApiError {
    /// The human readable message of this error:
    /// `Unsupported graphics API: Expected <each expected, followed by ", ">found <found>`.
    pub fn message(&self) -> (r: String)
        ensures
            r@ == "Unsupported graphics API: Expected "@ + expected_list(self.expected@) + "found "@
                + self.found@,
    {
        let mut s = String::from_str("Unsupported graphics API: Expected ");
        let ghost head = s@;
        let mut i: usize = 0;
        while i < self.expected.len()
            invariant
                i <= self.expected@.len(),
                head == "Unsupported graphics API: Expected "@,
                s@ == head + expected_list(self.expected@.take(i as int)),
            decreases self.expected@.len() - i,
        {
            s.append(self.expected[i].as_str());
            s.append(", ");
            proof {
                reveal_strlit(", ");
                let t = self.expected@.take(i as int + 1);
                assert(t.drop_last() =~= self.expected@.take(i as int));
                assert(t.last() == self.expected@[i as int]);
                assert(s@ =~= head + expected_list(t));
            }
            i = i + 1;
        }
        assert(self.expected@.take(i as int) =~= self.expected@);
        s.append("found ");
        s.append(self.found.as_str());
        s
    }
}

/// The graphics API that a window is built for: the requested one, OpenGL
/// 3.2 when none was requested. Only OpenGL is supported.
pub fn graphics_api_from_settings(requested: Option<Version>) -> (r: Result<Version, UnsupportedGraphicsApiError>)
    ensures
        match requested {
            Some(v) => if v.api@ == OPENGL@ {
                r == Ok::<Version, UnsupportedGraphicsApiError>(v)
            } else {
                r matches Err(e) && e.found@ == v.api@ && e.expected@.len() == 1
                    && e.expected@[0]@ == OPENGL@
            },
            None => r matches Ok(v) && v.api@ == OPENGL@ && v.major == 3 && v.minor == 2,
        },
{
    let api = match requested {
        Some(v) => v,
        None => Version::opengl(3, 2),
    };
    if !api.is_opengl() {
        let mut expected: Vec<String> = Vec::new();
        expected.push(String::from_str(OPENGL));
        return Err(UnsupportedGraphicsApiError { found: api.api, expected });
    }
    Ok(api)
}

} // verus!
