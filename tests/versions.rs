use glutin_window::graphics_api_version::{graphics_api_from_settings, Version, DIRECTX, METAL, OPENGL, VULKAN};
use glutin_window::shader_version::{OpenGL, Shaders, GLSL};

#[test]
fn test_it() {
    let a = Version::opengl(3, 2);
    let b = Version::opengl(4, 0);
    assert!(b > a);
}

#[test]
fn constructors_and_api_checks() {
    let v = Version::vulkan(1, 3);
    assert_eq!(v.api, VULKAN);
    assert_eq!((v.major, v.minor), (1, 3));
    assert!(v.is_vulkan() && !v.is_opengl() && !v.is_directx() && !v.is_metal());
    assert!(Version::opengl(2, 1).is_opengl());
    assert!(Version::directx(12, 0).is_directx());
    assert_eq!(Version::directx(12, 0).api, DIRECTX);
    assert!(Version::metal(3, 0).is_metal());
    assert_eq!(Version::metal(3, 0).api, METAL);
    assert_eq!(Version::opengl(2, 1).api, OPENGL);
}

#[test]
fn graphics_api_defaults_to_opengl_3_2() {
    let v = graphics_api_from_settings(None).unwrap();
    assert_eq!(v, Version::opengl(3, 2));
    let w = graphics_api_from_settings(Some(Version::opengl(4, 5))).unwrap();
    assert_eq!(w, Version::opengl(4, 5));
}

#[test]
fn graphics_api_rejects_other_apis() {
    let e = graphics_api_from_settings(Some(Version::vulkan(1, 0))).unwrap_err();
    assert_eq!(e.found, "Vulkan");
    assert_eq!(e.expected, vec!["OpenGL".to_string()]);
    assert_eq!(e.message(), "Unsupported graphics API: Expected OpenGL, found Vulkan");
}

#[test]
fn opengl_from_api() {
    assert_eq!(OpenGL::from_api(Version::opengl(3, 2)), Some(OpenGL::V3_2));
    assert_eq!(OpenGL::from_api(Version::opengl(4, 5)), Some(OpenGL::V4_5));
    assert_eq!(OpenGL::from_api(Version::opengl(3, 4)), None);
    assert_eq!(OpenGL::from_api(Version::vulkan(3, 2)), None);
}

#[test]
fn opengl_glsl_tables() {
    assert_eq!(OpenGL::V3_2.get_major_minor(), (3, 2));
    assert_eq!(OpenGL::V2_0.get_major_minor(), (2, 0));
    assert_eq!(OpenGL::V3_3.to_glsl(), GLSL::V3_30);
    assert_eq!(OpenGL::V2_1.to_glsl(), GLSL::V1_20);
    assert_eq!(GLSL::V1_50.to_opengl(), OpenGL::V3_2);
    assert_eq!(GLSL::V4_50.to_opengl(), OpenGL::V4_5);
    assert!(GLSL::V1_10 < GLSL::V4_50);
}

#[test]
fn parse_versions() {
    assert_eq!("1.50".parse::<GLSL>().unwrap(), GLSL::V1_50);
    assert_eq!("4.40".parse::<GLSL>().unwrap(), GLSL::V4_40);
    assert_eq!("3.3".parse::<OpenGL>().unwrap(), OpenGL::V3_3);
    let e = "1.5".parse::<GLSL>().unwrap_err();
    assert_eq!(e.input(), "1.5");
    assert_eq!(e.message(), "`1.5` is not a valid GLSL version");
    assert_eq!(e.description(), "Invalid GLSL version");
    let f = "5.0".parse::<OpenGL>().unwrap_err();
    assert_eq!(f.message(), "`5.0` is not a valid OpenGL version");
    assert_eq!(f.description(), "Invalid OpenGL version");
}

#[test]
fn shaders_pick_closest_compatible() {
    let mut shaders: Shaders<str> = Shaders::new();
    assert_eq!(shaders.get(GLSL::V4_50), None);
    shaders.set(GLSL::V1_20, "old");
    shaders.set(GLSL::V1_50, "core");
    shaders.set(GLSL::V3_30, "newer");
    assert_eq!(shaders.get(GLSL::V1_10), None);
    assert_eq!(shaders.get(GLSL::V1_20), Some("old"));
    assert_eq!(shaders.get(GLSL::V1_40), Some("old"));
    assert_eq!(shaders.get(GLSL::V1_50), Some("core"));
    assert_eq!(shaders.get(GLSL::V4_00), Some("newer"));
    shaders.set(GLSL::V3_30, "replaced");
    assert_eq!(shaders.get(GLSL::V4_50), Some("replaced"));
}

#[test]
fn shaders_core_profile_ignores_old_glsl() {
    let mut shaders: Shaders<str> = Shaders::default();
    shaders.set(GLSL::V1_20, "old");
    assert_eq!(shaders.get(GLSL::V3_30), None);
    assert_eq!(shaders.get(GLSL::V1_30), Some("old"));
}

#[test]
fn opengl_version_round_trip() {
    for v in [OpenGL::V2_0, OpenGL::V3_2, OpenGL::V3_3, OpenGL::V4_5] {
        let api = Version::from(v);
        assert!(api.is_opengl());
        assert_eq!(OpenGL::from_api(api), Some(v));
    }
    assert_eq!(Version::from(OpenGL::V4_1), Version::opengl(4, 1));
}
