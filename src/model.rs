//! What a model asks of its materials: which texture files each mesh binds,
//! under which sampler, where those files lie, and which of them are already
//! loaded.
use vstd::prelude::*;

use crate::texture::Texture;

verus! {

/// The sampler a material texture is bound to in the geometry shader.
#[derive(Clone, Copy, Debug, PartialEq, Eq, Structural)]
pub enum TextureRole {
    Albedo,
    Normal,
    Roughness,
    Metallic,
}

pub open spec fn spec_uniform_name(role: TextureRole) -> Seq<char> {
    match role {
        TextureRole::Albedo => "uAlbedoTexture"@,
        TextureRole::Normal => "uNormalTexture"@,
        TextureRole::Roughness => "uRoughnessTexture"@,
        TextureRole::Metallic => "uMetallicTexture"@,
    }
}

impl TextureRole {
    /// The name of the shader uniform that samples a texture of this role.
    pub fn uniform_name(&self) -> (r: &'static str)
        ensures
            r@ == spec_uniform_name(*self),
    {
        match self {
            TextureRole::Albedo => "uAlbedoTexture",
            TextureRole::Normal => "uNormalTexture",
            TextureRole::Roughness => "uRoughnessTexture",
            TextureRole::Metallic => "uMetallicTexture",
        }
    }
}

/// The texture file names of one material, relative to the model's
/// directory; an empty name means the material has no such texture.
pub struct MaterialTextures {
    pub diffuse_texture: String,
    pub normal_texture: String,
    pub shininess_texture: String,
    pub ambient_texture: String,
}

/// A texture file a mesh binds, and the sampler it is bound to.
pub struct TextureRequest {
    pub filepath: String,
    pub role: TextureRole,
}

impl TextureRequest {
    pub open spec fn view(&self) -> (Seq<char>, TextureRole) {
        (self.filepath@, self.role)
    }
}

pub open spec fn spec_request_if_named(filepath: Seq<char>, role: TextureRole) -> Seq<
    (Seq<char>, TextureRole),
> {
    if filepath.len() == 0 {
        seq![]
    } else {
        seq![(filepath, role)]
    }
}

/// The textures a material binds: its diffuse map as albedo, its normal map,
/// its shininess map as roughness and its ambient map as metallic, in that
/// order, each only where the material names a file.
pub open spec fn spec_material_requests(m: MaterialTextures) -> Seq<(Seq<char>, TextureRole)> {
    spec_request_if_named(m.diffuse_texture@, TextureRole::Albedo) + spec_request_if_named(
        m.normal_texture@,
        TextureRole::Normal,
    ) + spec_request_if_named(m.shininess_texture@, TextureRole::Roughness)
        + spec_request_if_named(m.ambient_texture@, TextureRole::Metallic)
}

pub open spec fn spec_requests_view(rs: Seq<TextureRequest>) -> Seq<(Seq<char>, TextureRole)> {
    rs.map_values(|r: TextureRequest| r.view())
}

fn push_if_named(requests: &mut Vec<TextureRequest>, filepath: &String, role: TextureRole)
    ensures
        spec_requests_view(final(requests)@) == spec_requests_view(old(requests)@)
            + spec_request_if_named(filepath@, role),
{
    if !filepath.as_str().is_empty() {
        requests.push(TextureRequest { filepath: filepath.clone(), role });
    }
    assert(spec_requests_view(final(requests)@) =~= spec_requests_view(old(requests)@)
        + spec_request_if_named(filepath@, role));
}

/// The textures that `material` binds, in binding order.
pub fn material_texture_requests(material: &MaterialTextures) -> (r: Vec<TextureRequest>)
    ensures
        spec_requests_view(r@) == spec_material_requests(*material),
{
    let mut requests: Vec<TextureRequest> = Vec::new();
    assert(spec_requests_view(requests@) =~= seq![]);
    push_if_named(&mut requests, &material.diffuse_texture, TextureRole::Albedo);
    push_if_named(&mut requests, &material.normal_texture, TextureRole::Normal);
    push_if_named(&mut requests, &material.shininess_texture, TextureRole::Roughness);
    push_if_named(&mut requests, &material.ambient_texture, TextureRole::Metallic);
    requests
}

#[derive(Clone, Copy, Debug, PartialEq, Eq, Structural)]
pub enum ModelError {
    /// A mesh names a material past the end of the model's material list.
    MaterialOutOfRange(usize),
}

/// The textures a mesh binds: none without a material, else those of the
/// material it names.
pub fn mesh_texture_requests(material_id: Option<usize>, materials: &Vec<MaterialTextures>) -> (r:
    Result<Vec<TextureRequest>, ModelError>)
    ensures
        match material_id {
            None => r matches Ok(rs) && rs@.len() == 0,
            Some(id) => if id < materials@.len() {
                r matches Ok(rs) && spec_requests_view(rs@) == spec_material_requests(
                    materials@[id as int],
                )
            } else {
                r matches Err(e) && e == ModelError::MaterialOutOfRange(id)
            },
        },
{
    match material_id {
        None => Ok(Vec::new()),
        Some(id) => {
            if id < materials.len() {
                Ok(material_texture_requests(&materials[id]))
            } else {
                Err(ModelError::MaterialOutOfRange(id))
            }
        },
    }
}

/// The path of texture file `filepath` of a model kept in `directory`.
pub fn texture_filepath(directory: &str, filepath: &str) -> (r: String)
    ensures
        r@ == directory@ + seq!['/'] + filepath@,
{
    let mut path = directory.to_owned();
    path.append("/");
    path.append(filepath);
    proof {
        reveal_strlit("/");
    }
    path
}

/// What `std::path::Path::parent` gives for a path, as text: the path
/// without its final component, or nothing where it has none.
pub uninterp spec fn path_parent_of(path: Seq<char>) -> Option<Seq<char>>;

/// Relies on std::path::Path::parent, which returns the path without its
/// final component, a prefix of it, and nothing for the empty path; the
/// result depends on the path alone.
#[verifier::external_body]
fn path_parent(path: &str) -> (r: Option<String>)
    ensures
        match r {
            Some(p) => path_parent_of(path@) == Some(p@),
            None => path_parent_of(path@) is None,
        },
        path@.len() == 0 ==> r is None,
        r matches Some(p) ==> p@.len() <= path@.len() && p@ == path@.subrange(0, p@.len() as int),
{
    match std::path::Path::new(path).parent() {
        Some(parent) => Some(parent.to_string_lossy().into_owned()),
        None => None,
    }
}

/// The directory of a model file: the parent of its path, empty where the
/// path has none.
pub open spec fn spec_model_directory(model_filepath: Seq<char>) -> Seq<char> {
    match path_parent_of(model_filepath) {
        Some(parent) => parent,
        None => Seq::<char>::empty(),
    }
}

/// The directory a model file lies in, empty where its path has no parent;
/// texture files of the model are named relative to it.
pub fn model_directory(model_filepath: &str) -> (r: String)
    ensures
        r@ == spec_model_directory(model_filepath@),
        r@.len() <= model_filepath@.len(),
        r@ == model_filepath@.subrange(0, r@.len() as int),
        model_filepath@.len() == 0 ==> r@.len() == 0,
{
    match path_parent(model_filepath) {
        Some(parent) => parent,
        None => String::new(),
    }
}

/// A loaded material texture: the texture, the sampler uniform it is bound
/// to, and the file name it was loaded from, as the material gave it.
#[derive(Clone)]
pub struct TextureData {
    pub texture: Texture,
    pub texture_type: String,
    pub filepath: String,
}

impl TextureData {
    /// The record of `texture`, loaded for `request`.
    pub fn for_request(texture: Texture, request: &TextureRequest) -> (r: TextureData)
        ensures
            r.texture == texture,
            r.texture_type@ == spec_uniform_name(request.role),
            r.filepath@ == request.filepath@,
    {
        TextureData {
            texture,
            texture_type: request.role.uniform_name().to_owned(),
            filepath: request.filepath.clone(),
        }
    }

    /// A second record equal to this one.
    pub fn duplicate(&self) -> (r: TextureData)
        ensures
            r == *self,
    {
        TextureData {
            texture: self.texture,
            texture_type: self.texture_type.clone(),
            filepath: self.filepath.clone(),
        }
    }
}

/// What a model does for a texture file a material names.
pub enum TextureLookup {
    /// The file was loaded before: bind this record again.
    Cached(TextureData),
    /// The file is new: load it from this path, then remember it.
    Load(String),
}

/// The textures a model has loaded so far, so that a file two materials
/// share is loaded once.
pub struct TextureCache {
    pub directory: String,
    pub textures_loaded: Vec<TextureData>,
}

impl TextureCache {
    /// No file is loaded twice: the loaded textures' file names are pairwise
    /// distinct.
    pub open spec fn paths_distinct(&self) -> bool {
        forall|i: int, j: int|
            0 <= i < j < self.textures_loaded@.len() ==> self.textures_loaded@[i].filepath@
                != self.textures_loaded@[j].filepath@
    }

    /// Whether a texture from file `filepath` is loaded.
    pub open spec fn holds(&self, filepath: Seq<char>) -> bool {
        exists|i: int|
            0 <= i < self.textures_loaded@.len() && self.textures_loaded@[i].filepath@ == filepath
    }

    /// An empty cache for the model at `model_filepath`, whose textures lie
    /// in the model's directory.
    pub fn new(model_filepath: &str) -> (r: TextureCache)
        ensures
            r.directory@ == spec_model_directory(model_filepath@),
            r.textures_loaded@.len() == 0,
            r.paths_distinct(),
    {
        TextureCache { directory: model_directory(model_filepath), textures_loaded: Vec::new() }
    }

    /// The position of the first loaded texture that came from `filepath`.
    pub fn position(&self, filepath: &str) -> (r: Option<usize>)
        ensures
            match r {
                Some(i) => i < self.textures_loaded@.len() && self.textures_loaded@[i as int].filepath@
                    == filepath@ && forall|j: int|
                    0 <= j < i ==> self.textures_loaded@[j].filepath@ != filepath@,
                None => !self.holds(filepath@),
            },
    {
        let wanted = filepath.to_owned();
        let mut i: usize = 0;
        while i < self.textures_loaded.len()
            invariant
                i <= self.textures_loaded@.len(),
                wanted@ == filepath@,
                forall|j: int| 0 <= j < i ==> self.textures_loaded@[j].filepath@ != filepath@,
            decreases self.textures_loaded@.len() - i,
        {
            if self.textures_loaded[i].filepath == wanted {
                return Some(i);
            }
            i = i + 1;
        }
        None
    }

    /// The file a texture named `filepath` in a material of this model is
    /// loaded from.
    pub fn path_of(&self, filepath: &str) -> (r: String)
        ensures
            r@ == self.directory@ + seq!['/'] + filepath@,
    {
        texture_filepath(self.directory.as_str(), filepath)
    }

    /// What to do for the texture file `filepath`: reuse the record of the
    /// first texture loaded from it, or else load it from the model's
    /// directory.
    pub fn lookup(&self, filepath: &str) -> (r: TextureLookup)
        ensures
            match r {
                TextureLookup::Cached(d) => exists|i: int|
                    0 <= i < self.textures_loaded@.len() && d == self.textures_loaded@[i]
                        && d.filepath@ == filepath@ && forall|j: int|
                        0 <= j < i ==> self.textures_loaded@[j].filepath@ != filepath@,
                TextureLookup::Load(path) => !self.holds(filepath@) && path@ == self.directory@
                    + seq!['/'] + filepath@,
            },
    {
        match self.position(filepath) {
            Some(i) => TextureLookup::Cached(self.textures_loaded[i].duplicate()),
            None => TextureLookup::Load(self.path_of(filepath)),
        }
    }

    /// Records a newly loaded texture, from a file not loaded before, after
    /// those already loaded.
    pub fn remember(&mut self, texture_data: TextureData)
        requires
            old(self).paths_distinct(),
            !old(self).holds(texture_data.filepath@),
        ensures
            final(self).directory == old(self).directory,
            final(self).textures_loaded@ == old(self).textures_loaded@.push(texture_data),
            final(self).paths_distinct(),
    {
        self.textures_loaded.push(texture_data);
        assert(forall|j: int|
            0 <= j < old(self).textures_loaded@.len() ==> self.textures_loaded@[j]
                == old(self).textures_loaded@[j]);
    }
}

} // verus!
