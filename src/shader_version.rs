//! Detecting and picking compatible shaders.

use vstd::prelude::*;
use vstd::string::*;

use crate::graphics_api_version::{Version, OPENGL};

verus! {

/// Returns whether two strings hold the same characters.
fn same_text(a: &str, b: &str) -> (r: bool)
    ensures
        r == (a@ == b@),
{
    String::from_str(a) == String::from_str(b)
}

/// Models versions of the OpenGL Shading Language (GLSL).
///
/// For OpenGL version 3.3 and above, the GLSL version is the same as the
/// OpenGL version.
#[allow(non_camel_case_types)]
#[derive(Copy, Clone, Debug, PartialEq, Eq, Structural, PartialOrd, Ord, Hash)]
pub enum GLSL {
    V1_10,
    V1_20,
    V1_30,
    V1_40,
    V1_50,
    V3_30,
    V4_00,
    V4_10,
    V4_20,
    V4_30,
    V4_40,
    V4_50,
}

/// Models versions of OpenGL.
#[allow(non_camel_case_types)]
#[derive(Copy, Clone, Debug, PartialEq, Eq, Structural, PartialOrd, Ord, Hash)]
pub enum OpenGL {
    V2_0,
    V2_1,
    V3_0,
    V3_1,
    V3_2,
    V3_3,
    V4_0,
    V4_1,
    V4_2,
    V4_3,
    V4_4,
    V4_5,
}

/// The number of GLSL versions, and of OpenGL versions.
pub const NUM_VERSIONS: usize = 12;

/// Position of a GLSL version in release order; `<` on `GLSL` follows it.
pub open spec fn glsl_rank(v: GLSL) -> int {
    match v {
        GLSL::V1_10 => 0,
        GLSL::V1_20 => 1,
        GLSL::V1_30 => 2,
        GLSL::V1_40 => 3,
        GLSL::V1_50 => 4,
        GLSL::V3_30 => 5,
        GLSL::V4_00 => 6,
        GLSL::V4_10 => 7,
        GLSL::V4_20 => 8,
        GLSL::V4_30 => 9,
        GLSL::V4_40 => 10,
        GLSL::V4_50 => 11,
    }
}

/// Position of an OpenGL version in release order; `<` on `OpenGL` follows it.
pub open spec fn opengl_rank(v: OpenGL) -> int {
    match v {
        OpenGL::V2_0 => 0,
        OpenGL::V2_1 => 1,
        OpenGL::V3_0 => 2,
        OpenGL::V3_1 => 3,
        OpenGL::V3_2 => 4,
        OpenGL::V3_3 => 5,
        OpenGL::V4_0 => 6,
        OpenGL::V4_1 => 7,
        OpenGL::V4_2 => 8,
        OpenGL::V4_3 => 9,
        OpenGL::V4_4 => 10,
        OpenGL::V4_5 => 11,
    }
}

/// The major and minor number of an OpenGL version.
pub open spec fn opengl_numbers(v: OpenGL) -> (int, int) {
    match v {
        OpenGL::V2_0 => (2, 0),
        OpenGL::V2_1 => (2, 1),
        OpenGL::V3_0 => (3, 0),
        OpenGL::V3_1 => (3, 1),
        OpenGL::V3_2 => (3, 2),
        OpenGL::V3_3 => (3, 3),
        OpenGL::V4_0 => (4, 0),
        OpenGL::V4_1 => (4, 1),
        OpenGL::V4_2 => (4, 2),
        OpenGL::V4_3 => (4, 3),
        OpenGL::V4_4 => (4, 4),
        OpenGL::V4_5 => (4, 5),
    }
}

/// The OpenGL version with the given major and minor number, if there is one.
pub open spec fn opengl_of_numbers(major: int, minor: int) -> Option<OpenGL> {
    if exists|v: OpenGL| opengl_numbers(v) == (major, minor) {
        Some(choose|v: OpenGL| opengl_numbers(v) == (major, minor))
    } else {
        None
    }
}

/// The text that names a GLSL version, as in `"1.50"`.
pub open spec fn glsl_text(v: GLSL) -> Seq<char> {
    match v {
        GLSL::V1_10 => seq!['1', '.', '1', '0'],
        GLSL::V1_20 => seq!['1', '.', '2', '0'],
        GLSL::V1_30 => seq!['1', '.', '3', '0'],
        GLSL::V1_40 => seq!['1', '.', '4', '0'],
        GLSL::V1_50 => seq!['1', '.', '5', '0'],
        GLSL::V3_30 => seq!['3', '.', '3', '0'],
        GLSL::V4_00 => seq!['4', '.', '0', '0'],
        GLSL::V4_10 => seq!['4', '.', '1', '0'],
        GLSL::V4_20 => seq!['4', '.', '2', '0'],
        GLSL::V4_30 => seq!['4', '.', '3', '0'],
        GLSL::V4_40 => seq!['4', '.', '4', '0'],
        GLSL::V4_50 => seq!['4', '.', '5', '0'],
    }
}

/// The text that names an OpenGL version, as in `"3.2"`.
pub open spec fn opengl_text(v: OpenGL) -> Seq<char> {
    match v {
        OpenGL::V2_0 => seq!['2', '.', '0'],
        OpenGL::V2_1 => seq!['2', '.', '1'],
        OpenGL::V3_0 => seq!['3', '.', '0'],
        OpenGL::V3_1 => seq!['3', '.', '1'],
        OpenGL::V3_2 => seq!['3', '.', '2'],
        OpenGL::V3_3 => seq!['3', '.', '3'],
        OpenGL::V4_0 => seq!['4', '.', '0'],
        OpenGL::V4_1 => seq!['4', '.', '1'],
        OpenGL::V4_2 => seq!['4', '.', '2'],
        OpenGL::V4_3 => seq!['4', '.', '3'],
        OpenGL::V4_4 => seq!['4', '.', '4'],
        OpenGL::V4_5 => seq!['4', '.', '5'],
    }
}

/// The OpenGL version that a GLSL version came with.
pub open spec fn glsl_to_opengl(v: GLSL) -> OpenGL {
    match v {
        GLSL::V1_10 => OpenGL::V2_0,
        GLSL::V1_20 => OpenGL::V2_1,
        GLSL::V1_30 => OpenGL::V3_0,
        GLSL::V1_40 => OpenGL::V3_1,
        GLSL::V1_50 => OpenGL::V3_2,
        GLSL::V3_30 => OpenGL::V3_3,
        GLSL::V4_00 => OpenGL::V4_0,
        GLSL::V4_10 => OpenGL::V4_1,
        GLSL::V4_20 => OpenGL::V4_2,
        GLSL::V4_30 => OpenGL::V4_3,
        GLSL::V4_40 => OpenGL::V4_4,
        GLSL::V4_50 => OpenGL::V4_5,
    }
}

/// The GLSL version that came with an OpenGL version.
pub open spec fn opengl_to_glsl(v: OpenGL) -> GLSL {
    match v {
        OpenGL::V2_0 => GLSL::V1_10,
        OpenGL::V2_1 => GLSL::V1_20,
        OpenGL::V3_0 => GLSL::V1_30,
        OpenGL::V3_1 => GLSL::V1_40,
        OpenGL::V3_2 => GLSL::V1_50,
        OpenGL::V3_3 => GLSL::V3_30,
        OpenGL::V4_0 => GLSL::V4_00,
        OpenGL::V4_1 => GLSL::V4_10,
        OpenGL::V4_2 => GLSL::V4_20,
        OpenGL::V4_3 => GLSL::V4_30,
        OpenGL::V4_4 => GLSL::V4_40,
        OpenGL::V4_5 => GLSL::V4_50,
    }
}

impl GLSL {
    /// Position of this version in release order.
    pub fn rank(&self) -> (r: usize)
        ensures
            r == glsl_rank(*self),
            r < NUM_VERSIONS,
    {
        match *self {
            GLSL::V1_10 => 0,
            GLSL::V1_20 => 1,
            GLSL::V1_30 => 2,
            GLSL::V1_40 => 3,
            GLSL::V1_50 => 4,
            GLSL::V3_30 => 5,
            GLSL::V4_00 => 6,
            GLSL::V4_10 => 7,
            GLSL::V4_20 => 8,
            GLSL::V4_30 => 9,
            GLSL::V4_40 => 10,
            GLSL::V4_50 => 11,
        }
    }

    /// Gets the OpenGL version associated with this GLSL version.
    pub fn to_opengl(&self) -> (r: OpenGL)
        ensures
            r == glsl_to_opengl(*self),
    {
        match *self {
            GLSL::V1_10 => OpenGL::V2_0,
            GLSL::V1_20 => OpenGL::V2_1,
            GLSL::V1_30 => OpenGL::V3_0,
            GLSL::V1_40 => OpenGL::V3_1,
            GLSL::V1_50 => OpenGL::V3_2,
            GLSL::V3_30 => OpenGL::V3_3,
            GLSL::V4_00 => OpenGL::V4_0,
            GLSL::V4_10 => OpenGL::V4_1,
            GLSL::V4_20 => OpenGL::V4_2,
            GLSL::V4_30 => OpenGL::V4_3,
            GLSL::V4_40 => OpenGL::V4_4,
            GLSL::V4_50 => OpenGL::V4_5,
        }
    }

    /// Parses a GLSL version written as in `"1.50"`.
    pub fn parse(s: &str) -> (r: Result<GLSL, ParseGLSLError>)
        ensures
            r is Ok <==> exists|v: GLSL| glsl_text(v) == s@,
            r matches Ok(v) ==> glsl_text(v) == s@,
            r matches Err(e) ==> e@ == s@,
    {
        if same_text(s, "1.10") {
            proof {
                reveal_strlit("1.10");
                assert(glsl_text(GLSL::V1_10) =~= s@);
            }
            Ok(GLSL::V1_10)
        } else if same_text(s, "1.20") {
            proof {
                reveal_strlit("1.20");
                assert(glsl_text(GLSL::V1_20) =~= s@);
            }
            Ok(GLSL::V1_20)
        } else if same_text(s, "1.30") {
            proof {
                reveal_strlit("1.30");
                assert(glsl_text(GLSL::V1_30) =~= s@);
            }
            Ok(GLSL::V1_30)
        } else if same_text(s, "1.40") {
            proof {
                reveal_strlit("1.40");
                assert(glsl_text(GLSL::V1_40) =~= s@);
            }
            Ok(GLSL::V1_40)
        } else if same_text(s, "1.50") {
            proof {
                reveal_strlit("1.50");
                assert(glsl_text(GLSL::V1_50) =~= s@);
            }
            Ok(GLSL::V1_50)
        } else if same_text(s, "3.30") {
            proof {
                reveal_strlit("3.30");
                assert(glsl_text(GLSL::V3_30) =~= s@);
            }
            Ok(GLSL::V3_30)
        } else if same_text(s, "4.00") {
            proof {
                reveal_strlit("4.00");
                assert(glsl_text(GLSL::V4_00) =~= s@);
            }
            Ok(GLSL::V4_00)
        } else if same_text(s, "4.10") {
            proof {
                reveal_strlit("4.10");
                assert(glsl_text(GLSL::V4_10) =~= s@);
            }
            Ok(GLSL::V4_10)
        } else if same_text(s, "4.20") {
            proof {
                reveal_strlit("4.20");
                assert(glsl_text(GLSL::V4_20) =~= s@);
            }
            Ok(GLSL::V4_20)
        } else if same_text(s, "4.30") {
            proof {
                reveal_strlit("4.30");
                assert(glsl_text(GLSL::V4_30) =~= s@);
            }
            Ok(GLSL::V4_30)
        } else if same_text(s, "4.40") {
            proof {
                reveal_strlit("4.40");
                assert(glsl_text(GLSL::V4_40) =~= s@);
            }
            Ok(GLSL::V4_40)
        } else if same_text(s, "4.50") {
            proof {
                reveal_strlit("4.50");
                assert(glsl_text(GLSL::V4_50) =~= s@);
            }
            Ok(GLSL::V4_50)
        } else {
            proof {
                reveal_strlit("1.10");
                reveal_strlit("1.20");
                reveal_strlit("1.30");
                reveal_strlit("1.40");
                reveal_strlit("1.50");
                reveal_strlit("3.30");
                reveal_strlit("4.00");
                reveal_strlit("4.10");
                reveal_strlit("4.20");
                reveal_strlit("4.30");
                reveal_strlit("4.40");
                reveal_strlit("4.50");
                assert forall|v: GLSL| glsl_text(v) != s@ by {
                    match v {
                        GLSL::V1_10 => assert(glsl_text(GLSL::V1_10) =~= "1.10"@),
                        GLSL::V1_20 => assert(glsl_text(GLSL::V1_20) =~= "1.20"@),
                        GLSL::V1_30 => assert(glsl_text(GLSL::V1_30) =~= "1.30"@),
                        GLSL::V1_40 => assert(glsl_text(GLSL::V1_40) =~= "1.40"@),
                        GLSL::V1_50 => assert(glsl_text(GLSL::V1_50) =~= "1.50"@),
                        GLSL::V3_30 => assert(glsl_text(GLSL::V3_30) =~= "3.30"@),
                        GLSL::V4_00 => assert(glsl_text(GLSL::V4_00) =~= "4.00"@),
                        GLSL::V4_10 => assert(glsl_text(GLSL::V4_10) =~= "4.10"@),
                        GLSL::V4_20 => assert(glsl_text(GLSL::V4_20) =~= "4.20"@),
                        GLSL::V4_30 => assert(glsl_text(GLSL::V4_30) =~= "4.30"@),
                        GLSL::V4_40 => assert(glsl_text(GLSL::V4_40) =~= "4.40"@),
                        GLSL::V4_50 => assert(glsl_text(GLSL::V4_50) =~= "4.50"@),
                    }
                }
            }
            Err(ParseGLSLError { input: String::from_str(s) })
        }
    }
}

impl OpenGL {
    /// Position of this version in release order.
    pub fn rank(&self) -> (r: usize)
        ensures
            r == opengl_rank(*self),
            r < NUM_VERSIONS,
    {
        match *self {
            OpenGL::V2_0 => 0,
            OpenGL::V2_1 => 1,
            OpenGL::V3_0 => 2,
            OpenGL::V3_1 => 3,
            OpenGL::V3_2 => 4,
            OpenGL::V3_3 => 5,
            OpenGL::V4_0 => 6,
            OpenGL::V4_1 => 7,
            OpenGL::V4_2 => 8,
            OpenGL::V4_3 => 9,
            OpenGL::V4_4 => 10,
            OpenGL::V4_5 => 11,
        }
    }

    /// Creates an `OpenGL` version from a graphics API version: `None` unless
    /// the API is OpenGL and the numbers name a known OpenGL version.
    pub fn from_api(val: Version) -> (r: Option<OpenGL>)
        ensures
            r == (if val.api@ == OPENGL@ {
                opengl_of_numbers(val.major as int, val.minor as int)
            } else {
                None
            }),
    {
        if val.api == String::from_str(OPENGL) {
            let r = match (val.major, val.minor) {
                (2, 0) => Some(OpenGL::V2_0),
                (2, 1) => Some(OpenGL::V2_1),
                (3, 0) => Some(OpenGL::V3_0),
                (3, 1) => Some(OpenGL::V3_1),
                (3, 2) => Some(OpenGL::V3_2),
                (3, 3) => Some(OpenGL::V3_3),
                (4, 0) => Some(OpenGL::V4_0),
                (4, 1) => Some(OpenGL::V4_1),
                (4, 2) => Some(OpenGL::V4_2),
                (4, 3) => Some(OpenGL::V4_3),
                (4, 4) => Some(OpenGL::V4_4),
                (4, 5) => Some(OpenGL::V4_5),
                _ => None,
            };
            proof {
                match r {
                    Some(v) => {
                        assert(opengl_numbers(v) == (val.major as int, val.minor as int));
                        lemma_numbers_unique(v);
                    },
                    None => {
                        assert forall|v: OpenGL| opengl_numbers(v) != (val.major as int, val.minor as int) by {
                            match v {
                                OpenGL::V2_0 => {},
                                OpenGL::V2_1 => {},
                                OpenGL::V3_0 => {},
                                OpenGL::V3_1 => {},
                                OpenGL::V3_2 => {},
                                OpenGL::V3_3 => {},
                                OpenGL::V4_0 => {},
                                OpenGL::V4_1 => {},
                                OpenGL::V4_2 => {},
                                OpenGL::V4_3 => {},
                                OpenGL::V4_4 => {},
                                OpenGL::V4_5 => {},
                            }
                        }
                    },
                }
            }
            r
        } else {
            None
        }
    }

    /// Gets the major and minor number of this OpenGL version.
    pub fn get_major_minor(&self) -> (r: (isize, isize))
        ensures
            (r.0 as int, r.1 as int) == opengl_numbers(*self),
    {
        match *self {
            OpenGL::V2_0 => (2, 0),
            OpenGL::V2_1 => (2, 1),
            OpenGL::V3_0 => (3, 0),
            OpenGL::V3_1 => (3, 1),
            OpenGL::V3_2 => (3, 2),
            OpenGL::V3_3 => (3, 3),
            OpenGL::V4_0 => (4, 0),
            OpenGL::V4_1 => (4, 1),
            OpenGL::V4_2 => (4, 2),
            OpenGL::V4_3 => (4, 3),
            OpenGL::V4_4 => (4, 4),
            OpenGL::V4_5 => (4, 5),
        }
    }

    /// Gets the GLSL version associated with this OpenGL version.
    pub fn to_glsl(&self) -> (r: GLSL)
        ensures
            r == opengl_to_glsl(*self),
    {
        match *self {
            OpenGL::V2_0 => GLSL::V1_10,
            OpenGL::V2_1 => GLSL::V1_20,
            OpenGL::V3_0 => GLSL::V1_30,
            OpenGL::V3_1 => GLSL::V1_40,
            OpenGL::V3_2 => GLSL::V1_50,
            OpenGL::V3_3 => GLSL::V3_30,
            OpenGL::V4_0 => GLSL::V4_00,
            OpenGL::V4_1 => GLSL::V4_10,
            OpenGL::V4_2 => GLSL::V4_20,
            OpenGL::V4_3 => GLSL::V4_30,
            OpenGL::V4_4 => GLSL::V4_40,
            OpenGL::V4_5 => GLSL::V4_50,
        }
    }

    /// Parses an OpenGL version written as in `"3.2"`.
    pub fn parse(s: &str) -> (r: Result<OpenGL, ParseOpenGLError>)
        ensures
            r is Ok <==> exists|v: OpenGL| opengl_text(v) == s@,
            r matches Ok(v) ==> opengl_text(v) == s@,
            r matches Err(e) ==> e@ == s@,
    {
        if same_text(s, "2.0") {
            proof {
                reveal_strlit("2.0");
                assert(opengl_text(OpenGL::V2_0) =~= s@);
            }
            Ok(OpenGL::V2_0)
        } else if same_text(s, "2.1") {
            proof {
                reveal_strlit("2.1");
                assert(opengl_text(OpenGL::V2_1) =~= s@);
            }
            Ok(OpenGL::V2_1)
        } else if same_text(s, "3.0") {
            proof {
                reveal_strlit("3.0");
                assert(opengl_text(OpenGL::V3_0) =~= s@);
            }
            Ok(OpenGL::V3_0)
        } else if same_text(s, "3.1") {
            proof {
                reveal_strlit("3.1");
                assert(opengl_text(OpenGL::V3_1) =~= s@);
            }
            Ok(OpenGL::V3_1)
        } else if same_text(s, "3.2") {
            proof {
                reveal_strlit("3.2");
                assert(opengl_text(OpenGL::V3_2) =~= s@);
            }
            Ok(OpenGL::V3_2)
        } else if same_text(s, "3.3") {
            proof {
                reveal_strlit("3.3");
                assert(opengl_text(OpenGL::V3_3) =~= s@);
            }
            Ok(OpenGL::V3_3)
        } else if same_text(s, "4.0") {
            proof {
                reveal_strlit("4.0");
                assert(opengl_text(OpenGL::V4_0) =~= s@);
            }
            Ok(OpenGL::V4_0)
        } else if same_text(s, "4.1") {
            proof {
                reveal_strlit("4.1");
                assert(opengl_text(OpenGL::V4_1) =~= s@);
            }
            Ok(OpenGL::V4_1)
        } else if same_text(s, "4.2") {
            proof {
                reveal_strlit("4.2");
                assert(opengl_text(OpenGL::V4_2) =~= s@);
            }
            Ok(OpenGL::V4_2)
        } else if same_text(s, "4.3") {
            proof {
                reveal_strlit("4.3");
                assert(opengl_text(OpenGL::V4_3) =~= s@);
            }
            Ok(OpenGL::V4_3)
        } else if same_text(s, "4.4") {
            proof {
                reveal_strlit("4.4");
                assert(opengl_text(OpenGL::V4_4) =~= s@);
            }
            Ok(OpenGL::V4_4)
        } else if same_text(s, "4.5") {
            proof {
                reveal_strlit("4.5");
                assert(opengl_text(OpenGL::V4_5) =~= s@);
            }
            Ok(OpenGL::V4_5)
        } else {
            proof {
                reveal_strlit("2.0");
                reveal_strlit("2.1");
                reveal_strlit("3.0");
                reveal_strlit("3.1");
                reveal_strlit("3.2");
                reveal_strlit("3.3");
                reveal_strlit("4.0");
                reveal_strlit("4.1");
                reveal_strlit("4.2");
                reveal_strlit("4.3");
                reveal_strlit("4.4");
                reveal_strlit("4.5");
                assert forall|v: OpenGL| opengl_text(v) != s@ by {
                    match v {
                        OpenGL::V2_0 => assert(opengl_text(OpenGL::V2_0) =~= "2.0"@),
                        OpenGL::V2_1 => assert(opengl_text(OpenGL::V2_1) =~= "2.1"@),
                        OpenGL::V3_0 => assert(opengl_text(OpenGL::V3_0) =~= "3.0"@),
                        OpenGL::V3_1 => assert(opengl_text(OpenGL::V3_1) =~= "3.1"@),
                        OpenGL::V3_2 => assert(opengl_text(OpenGL::V3_2) =~= "3.2"@),
                        OpenGL::V3_3 => assert(opengl_text(OpenGL::V3_3) =~= "3.3"@),
                        OpenGL::V4_0 => assert(opengl_text(OpenGL::V4_0) =~= "4.0"@),
                        OpenGL::V4_1 => assert(opengl_text(OpenGL::V4_1) =~= "4.1"@),
                        OpenGL::V4_2 => assert(opengl_text(OpenGL::V4_2) =~= "4.2"@),
                        OpenGL::V4_3 => assert(opengl_text(OpenGL::V4_3) =~= "4.3"@),
                        OpenGL::V4_4 => assert(opengl_text(OpenGL::V4_4) =~= "4.4"@),
                        OpenGL::V4_5 => assert(opengl_text(OpenGL::V4_5) =~= "4.5"@),
                    }
                }
            }
            Err(ParseOpenGLError { input: String::from_str(s) })
        }
    }
}

/// Reading back the numbers of an OpenGL version gives that version.
pub proof fn lemma_from_api_round_trip(v: OpenGL)
    ensures
        opengl_of_numbers(opengl_numbers(v).0, opengl_numbers(v).1) == Some(v),
{
    lemma_numbers_unique(v);
}

/// Different OpenGL versions have different numbers.
pub proof fn lemma_numbers_unique(v: OpenGL)
    ensures
        forall|w: OpenGL| opengl_numbers(w) == opengl_numbers(v) ==> w == v,
{
}

/// Represents an error while trying to get `GLSL` from `&str`.
#[derive(Debug)]
pub struct ParseGLSLError {
    input: String,
}

impl View for ParseGLSLError {
    type V = Seq<char>;

    /// The text that failed to parse.
    closed spec fn view(&self) -> Seq<char> {
        self.input@
    }
}

impl ParseGLSLError {
    /// The text that failed to parse.
    pub fn input(&self) -> (r: &String)
        ensures
            r@ == self@,
    {
        &self.input
    }

    /// The human readable message: `` `<input>` is not a valid GLSL version``.
    pub fn message(&self) -> (r: String)
        ensures
            r@ == "`"@ + self@ + "` is not a valid GLSL version"@,
    {
        let mut s = String::from_str("`");
        s.append(self.input.as_str());
        s.append("` is not a valid GLSL version");
        s
    }

    /// A short description of the error.
    pub fn description(&self) -> (r: &'static str)
        ensures
            r@ == "Invalid GLSL version"@,
    {
        "Invalid GLSL version"
    }
}

/// Represents an error while trying to get `OpenGL` from `&str`.
#[derive(Debug)]
pub struct ParseOpenGLError {
    input: String,
}

impl View for ParseOpenGLError {
    type V = Seq<char>;

    /// The text that failed to parse.
    closed spec fn view(&self) -> Seq<char> {
        self.input@
    }
}

impl ParseOpenGLError {
    /// The text that failed to parse.
    pub fn input(&self) -> (r: &String)
        ensures
            r@ == self@,
    {
        &self.input
    }

    /// The human readable message: `` `<input>` is not a valid OpenGL version``.
    pub fn message(&self) -> (r: String)
        ensures
            r@ == "`"@ + self@ + "` is not a valid OpenGL version"@,
    {
        let mut s = String::from_str("`");
        s.append(self.input.as_str());
        s.append("` is not a valid OpenGL version");
        s
    }

    /// A short description of the error.
    pub fn description(&self) -> (r: &'static str)
        ensures
            r@ == "Invalid OpenGL version"@,
    {
        "Invalid OpenGL version"
    }
}

impl From<OpenGL> for Version {
    fn from(val: OpenGL) -> Version {
        let (major, minor) = val.get_major_minor();
        Version::opengl(major as u32, minor as u32)
    }
}

impl vstd::std_specs::convert::FromSpecImpl<OpenGL> for Version {
    open spec fn obeys_from_spec() -> bool {
        false
    }

    open spec fn from_spec(v: OpenGL) -> Version {
        arbitrary()
    }
}

impl core::str::FromStr for GLSL {
    type Err = ParseGLSLError;

    fn from_str(s: &str) -> Result<GLSL, ParseGLSLError> {
        GLSL::parse(s)
    }
}

impl core::str::FromStr for OpenGL {
    type Err = ParseOpenGLError;

    fn from_str(s: &str) -> Result<OpenGL, ParseOpenGLError> {
        OpenGL::parse(s)
    }
}

/// Shader picker: holds at most one shader source for each GLSL version.
pub struct Shaders<'a, S: ?Sized> {
    slots: Vec<Option<&'a S>>,
}

impl<'a, S: ?Sized> View for Shaders<'a, S> {
    type V = Seq<Option<&'a S>>;

    /// The source set for each GLSL version, by rank.
    closed spec fn view(&self) -> Seq<Option<&'a S>> {
        self.slots@
    }
}

/// The lowest GLSL version that may serve a request for `v`: OpenGL 3.2 and
/// later in core profile do not accept GLSL below 1.50.
pub open spec fn lowest_compatible_rank(v: GLSL) -> int {
    if glsl_rank(v) < glsl_rank(GLSL::V1_50) {
        glsl_rank(GLSL::V1_10)
    } else {
        glsl_rank(GLSL::V1_50)
    }
}

/// The source of the highest version of rank `lo ..= hi` that has one.
pub open spec fn pick_from<'a, S: ?Sized>(slots: Seq<Option<&'a S>>, lo: int, hi: int) -> Option<&'a S>
    decreases hi - lo + 1,
{
    if hi < lo {
        None
    } else if slots[hi] is Some {
        slots[hi]
    } else {
        pick_from(slots, lo, hi - 1)
    }
}

impl<'a, S: ?Sized> Shaders<'a, S> {
    /// Every GLSL version has a slot.
    pub open spec fn wf(&self) -> bool {
        self@.len() == NUM_VERSIONS
    }

    /// The source set for a GLSL version.
    pub open spec fn shader_for(&self, v: GLSL) -> Option<&'a S> {
        self@[glsl_rank(v)]
    }

    /// Creates a shader picker that holds no source.
    pub fn new() -> (r: Self)
        ensures
            r.wf(),
            forall|v: GLSL| r.shader_for(v) is None,
    {
        let mut slots: Vec<Option<&'a S>> = Vec::new();
        let mut i: usize = 0;
        while i < NUM_VERSIONS
            invariant
                i <= NUM_VERSIONS,
                slots@.len() == i,
                forall|j: int| 0 <= j < i ==> slots@[j] is None,
            decreases NUM_VERSIONS - i,
        {
            slots.push(None);
            i = i + 1;
        }
        Shaders { slots }
    }

    /// Sets the source for a shader version, replacing any earlier one.
    pub fn set(&mut self, version: GLSL, source: &'a S)
        requires
            old(self).wf(),
        ensures
            final(self).wf(),
            final(self).shader_for(version) == Some(source),
            forall|v: GLSL| v != version ==> final(self).shader_for(v) == old(self).shader_for(v),
    {
        let i = version.rank();
        self.slots.set(i, Some(source));
        proof {
            assert forall|v: GLSL| v != version implies glsl_rank(v) != i by {
                lemma_glsl_rank_injective(v, version);
            }
        }
    }

    /// Gets the source of the highest version that is not above `version`
    /// and not below the lowest version compatible with it.
    pub fn get(&self, version: GLSL) -> (r: Option<&'a S>)
        requires
            self.wf(),
        ensures
            r == pick_from(self@, lowest_compatible_rank(version), glsl_rank(version)),
    {
        version.pick_shader(self)
    }
}

impl<'a, S: ?Sized> Default for Shaders<'a, S> {
    fn default() -> (r: Self)
        ensures
            r.wf(),
            forall|v: GLSL| r.shader_for(v) is None,
    {
        Self::new()
    }
}

/// Different GLSL versions have different ranks.
pub proof fn lemma_glsl_rank_injective(a: GLSL, b: GLSL)
    ensures
        glsl_rank(a) == glsl_rank(b) ==> a == b,
{
}

impl GLSL {
    /// Picks from `shaders` the source of the highest version that is not
    /// above `self` and not below the lowest version compatible with it.
    pub fn pick_shader<'a, S: ?Sized>(self, shaders: &Shaders<'a, S>) -> (r: Option<&'a S>)
        requires
            shaders.wf(),
        ensures
            r == pick_from(shaders@, lowest_compatible_rank(self), glsl_rank(self)),
    {
        let low: usize = if self.rank() < GLSL::V1_50.rank() {
            GLSL::V1_10.rank()
        } else {
            GLSL::V1_50.rank()
        };
        let mut i: usize = self.rank() + 1;
        while i > low
            invariant
                low <= i <= glsl_rank(self) + 1,
                low == lowest_compatible_rank(self),
                shaders.wf(),
                pick_from(shaders@, low as int, glsl_rank(self)) == pick_from(shaders@, low as int, i - 1),
            decreases i,
        {
            if let Some(s) = shaders.slots[i - 1] {
                return Some(s);
            }
            i = i - 1;
        }
        None
    }
}

} // verus!
