use vstd::prelude::*;

verus! {

/// Errors of shader loading.
#[derive(Debug)]
pub enum ShaderLoadError {
    /// the shader has an invalid name
    BadName,
    /// the shader has an improperly formatted code
    BadCode,
    /// a node parsing error occurred
    ParseError(anyhow::Error),
}

/// A WGSL shader as stored in a level file: its name and its code, each `None` where the stored
/// bytes are not valid text.
pub struct LevelWgslShader {
    pub name: Option<String>,
    pub code: Option<String>,
}

/// A loaded shader, ready for the renderer to compile into a shader module.
pub struct ShaderSource {
    pub name: String,
    pub code: String,
}

/// Loads a parsed level-file shader: its name must be valid text
/// ([`ShaderLoadError::BadName`]), then its code ([`ShaderLoadError::BadCode`]); a parse failure is
/// passed on as [`ShaderLoadError::ParseError`]. Gives the shader's name with its source.
pub fn load_shader(parsed: Result<LevelWgslShader, anyhow::Error>) -> (r: Result<(String, ShaderSource), ShaderLoadError>)
    ensures
        parsed matches Err(e) ==> (r matches Err(ShaderLoadError::ParseError(e2)) && e2 == e),
        parsed matches Ok(s) ==> {
            &&& s.name is None ==> (r matches Err(ShaderLoadError::BadName))
            &&& s.name is Some && s.code is None ==> (r matches Err(ShaderLoadError::BadCode))
            &&& s.name is Some && s.code is Some ==> (r matches Ok((n, source)) && n == s.name->0
                && source.name == s.name->0 && source.code == s.code->0)
        },
{
    let node = match parsed {
        Ok(node) => node,
        Err(e) => return Err(ShaderLoadError::ParseError(e)),
    };
    let name = match node.name {
        Some(name) => name,
        None => return Err(ShaderLoadError::BadName),
    };
    let code = match node.code {
        Some(code) => code,
        None => return Err(ShaderLoadError::BadCode),
    };
    Ok((name.clone(), ShaderSource { name, code }))
}

} // verus!
