use vstd::prelude::*;
use vstd::string::StringExecFns;

verus! {

/// The shader sources a theme provides, one file each.
#[derive(Clone, Copy, Debug, PartialEq, Eq, Structural)]
pub enum ShaderFile {
    QuadVertex,
    Background,
    Foreground,
    ParticleVertex,
    ParticleFragment,
}

/// File name of a shader source inside its theme's directory.
pub open spec fn spec_file_name(f: ShaderFile) -> Seq<char> {
    match f {
        ShaderFile::QuadVertex => "quad.vs"@,
        ShaderFile::Background => "background.fs"@,
        ShaderFile::Foreground => "foreground.fs"@,
        ShaderFile::ParticleVertex => "particle.vs"@,
        ShaderFile::ParticleFragment => "particle.fs"@,
    }
}

/// The directory under `root` whose subdirectories are the themes.
pub open spec fn spec_shaders_dir(root: Seq<char>) -> Seq<char> {
    root + "/shaders/"@
}

/// Path of a theme's shader source under `root`.
pub open spec fn spec_shader_path(root: Seq<char>, variant: Seq<char>, f: ShaderFile) -> Seq<char> {
    spec_shaders_dir(root) + variant + "/"@ + spec_file_name(f)
}

/// Path of the logo image under `root`.
pub open spec fn spec_logo_path(root: Seq<char>) -> Seq<char> {
    root + "/images/logo.png"@
}

/// File name of a shader source inside its theme's directory.
pub fn file_name(f: ShaderFile) -> (r: &'static str)
    ensures
        r@ == spec_file_name(f),
{
    match f {
        ShaderFile::QuadVertex => "quad.vs",
        ShaderFile::Background => "background.fs",
        ShaderFile::Foreground => "foreground.fs",
        ShaderFile::ParticleVertex => "particle.vs",
        ShaderFile::ParticleFragment => "particle.fs",
    }
}

/// The directory listed to discover the themes.
pub fn shaders_dir(root: &str) -> (r: String)
    ensures
        r@ == spec_shaders_dir(root@),
{
    let mut r = String::from_str(root);
    r.append("/shaders/");
    r
}

/// Where a theme's shader source is read from.
pub fn shader_path(root: &str, variant: &str, f: ShaderFile) -> (r: String)
    ensures
        r@ == spec_shader_path(root@, variant@, f),
{
    let mut r = shaders_dir(root);
    r.append(variant);
    r.append("/");
    r.append(file_name(f));
    r
}

/// Where the logo image is read from.
pub fn logo_path(root: &str) -> (r: String)
    ensures
        r@ == spec_logo_path(root@),
{
    let mut r = String::from_str(root);
    r.append("/images/logo.png");
    r
}

} // verus!
