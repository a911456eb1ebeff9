//! The texture object: creation with allocation-strategy selection, mipmap
//! views, pixel transfer, compressed read-back and ordered teardown, stated
//! against the explicit device-context model. Sampler parameters (wrap and
//! filter modes) are outside the model's state.

use vstd::prelude::*;

use crate::context::{
    spec_at_least, Api, DeviceContext, Extensions, LevelStorage, TextureStorage, Version,
};
use crate::dimensions::{level_extent, spec_is_power_of_two, spec_level_extent, Dimensions};
use crate::image_format::{
    client_format_to_glenum, format_request_to_glenum, spec_client_format_result,
    spec_format_request_result, ClientFormat, GetFormatError,
    InternalFormat, MipmapsOption, TextureCreationError, TextureFormatRequest,
};
use crate::pixels::{grid_view, grid_wf, spec_decode, spec_default_texel, zero_grid, Grid};

verus! {

/// A texture whose shape class is not fixed at compile time. It owns one
/// driver texture name; the name is released by [`TextureAny::destroy`].
#[derive(Debug)]
pub struct TextureAny {
    /// The driver texture name.
    pub id: u32,
    /// The format the caller asked for; immutable after creation.
    pub requested_format: TextureFormatRequest,
    /// Cache of the queried storage format: `None` until queried, then the
    /// query's outcome, success or failure, kept forever.
    pub actual_format: Option<Result<InternalFormat, GetFormatError>>,
    /// Shape class and extents; immutable after creation.
    pub ty: Dimensions,
    /// Number of mipmap levels; one means the base level only.
    pub levels: u32,
    /// Whether automatic mipmap generation was requested at creation.
    pub generate_mipmaps: bool,
}

/// A non-owning view of one (layer, level) slice of a texture, with the
/// extents resolved for that level.
#[derive(Copy, Clone)]
pub struct TextureAnyMipmap<'a> {
    /// The texture the view borrows.
    pub texture: &'a TextureAny,
    /// Layer for array textures, zero otherwise.
    pub layer: u32,
    /// Mipmap level.
    pub level: u32,
    /// Width of this level.
    pub width: u32,
    /// Height of this level, absent where the shape class has no height.
    pub height: Option<u32>,
    /// Depth of this level, absent where the shape class has no depth.
    pub depth: Option<u32>,
}

/// The layer bound a view's layer is checked against: the array size, or
/// one for non-array shapes.
pub open spec fn spec_array_size_or_one(ty: Dimensions) -> u32 {
    match ty.spec_array_size() {
        Some(a) => a,
        None => 1u32,
    }
}

/// How many texel grids one allocated level holds: one per array layer, one
/// per depth slice of the level for three-dimensional textures, else one.
pub open spec fn spec_slice_count(ty: Dimensions, level: u32) -> nat {
    match ty {
        Dimensions::Texture2dArray { array_size, .. } => array_size as nat,
        Dimensions::Texture2dMultisampleArray { array_size, .. } => array_size as nat,
        Dimensions::Texture3d { depth, .. } => spec_level_extent(depth, level) as nat,
        _ => 1nat,
    }
}

/// How many rows each grid of one allocated level holds. Layers of an array
/// of one-dimensional textures are stored as the rows of a single grid.
pub open spec fn spec_grid_rows(ty: Dimensions, level: u32) -> nat {
    match ty {
        Dimensions::Texture1d { .. } => 1nat,
        Dimensions::Texture1dArray { array_size, .. } => array_size as nat,
        _ => spec_level_extent(
            match ty.spec_height() {
                Some(h) => h,
                None => 1u32,
            },
            level,
        ) as nat,
    }
}

/// How many texels each row of one allocated level holds.
pub open spec fn spec_grid_cols(ty: Dimensions, level: u32) -> nat {
    spec_level_extent(ty.spec_width(), level) as nat
}

/// Whether one allocated level has the slice count and grid extents its
/// texture's shape prescribes.
pub open spec fn spec_level_wf(
    ls: crate::context::LevelStorage,
    ty: Dimensions,
    level: u32,
) -> bool {
    ls.layers@.len() == spec_slice_count(ty, level) && forall|k: int|
        0 <= k < ls.layers@.len() ==> crate::pixels::grid_wf(
            crate::pixels::grid_view(#[trigger] ls.layers@[k]),
            spec_grid_cols(ty, level),
            spec_grid_rows(ty, level),
        )
}

/// Whether a driver-side storage is shaped as the texture prescribes: at
/// least the base level, at most the texture's level count, each level well
/// formed.
pub open spec fn spec_storage_wf(st: TextureStorage, ty: Dimensions, levels: u32) -> bool {
    1 <= st.levels@.len() <= levels && forall|l: int|
        0 <= l < st.levels@.len() ==> spec_level_wf(#[trigger] st.levels@[l], ty, l as u32)
}

impl TextureAny {
    /// The structural invariant every created texture has.
    pub open spec fn spec_wf(self) -> bool {
        1 <= self.levels <= 32
    }

    /// The texture's name is live in the context and its storage is shaped
    /// as the texture prescribes.
    pub open spec fn spec_valid(self, ctxt: DeviceContext) -> bool {
        self.spec_wf() && ctxt.spec_live(self.id) && spec_storage_wf(
            ctxt.spec_storage(self.id),
            self.ty,
            self.levels,
        )
    }

    /// The driver texture name.
    pub fn get_id(&self) -> (r: u32)
        ensures
            r == self.id,
    {
        self.id
    }

    /// Width of the base level.
    pub fn get_width(&self) -> (r: u32)
        ensures
            r == self.ty.spec_width(),
    {
        self.ty.width()
    }

    /// Height of the base level; `None` where the shape class has none.
    pub fn get_height(&self) -> (r: Option<u32>)
        ensures
            r == self.ty.spec_height(),
    {
        self.ty.height()
    }

    /// Depth of the base level; `None` where the shape class has none.
    pub fn get_depth(&self) -> (r: Option<u32>)
        ensures
            r == self.ty.spec_depth(),
    {
        self.ty.depth()
    }

    /// Array size; `None` for non-array shape classes.
    pub fn get_array_size(&self) -> (r: Option<u32>)
        ensures
            r == self.ty.spec_array_size(),
    {
        self.ty.array_size()
    }

    /// Number of mipmap levels, one meaning the base level only.
    pub fn get_mipmap_levels(&self) -> (r: u32)
        ensures
            r == self.levels,
    {
        self.levels
    }

    /// The shape class and extents.
    pub fn get_texture_type(&self) -> (r: Dimensions)
        ensures
            r == self.ty,
    {
        self.ty
    }

    /// The driver bind-target code of this texture's shape class.
    pub fn get_bind_point(&self) -> (r: u32)
        ensures
            r == self.ty.spec_bind_point(),
    {
        self.ty.bind_point()
    }

    /// Binds this texture on the active unit, consulting the shadow state:
    /// the driver call is issued only when the unit holds another name.
    /// Returns the bind-target code.
    pub fn bind_to_current(&self, ctxt: &mut DeviceContext) -> (r: u32)
        requires
            old(ctxt).spec_wf(),
            old(ctxt).bind_calls < u64::MAX,
        ensures
            r == self.ty.spec_bind_point(),
            final(ctxt).spec_wf(),
            final(ctxt).texture_units@ == old(ctxt).texture_units@.update(
                old(ctxt).active_texture as int,
                self.id,
            ),
            old(ctxt).texture_units@[old(ctxt).active_texture as int] == self.id
                ==> final(ctxt).bind_calls == old(ctxt).bind_calls,
            old(ctxt).texture_units@[old(ctxt).active_texture as int] != self.id
                ==> final(ctxt).bind_calls == old(ctxt).bind_calls + 1,
            final(ctxt).version == old(ctxt).version,
            final(ctxt).extensions == old(ctxt).extensions,
            final(ctxt).active_texture == old(ctxt).active_texture,
            final(ctxt).pixel_store_unpack_alignment == old(ctxt).pixel_store_unpack_alignment,
            final(ctxt).pixel_store_pack_alignment == old(ctxt).pixel_store_pack_alignment,
            final(ctxt).textures == old(ctxt).textures,
            final(ctxt).attachments == old(ctxt).attachments,
            final(ctxt).format_queries == old(ctxt).format_queries,
            final(ctxt).mipmap_generations == old(ctxt).mipmap_generations,
    {
        ctxt.bind_texture(self.id);
        self.ty.bind_point()
    }

    /// Returns a view of one mipmap of the texture, or `None` where the
    /// layer or level is out of range. The view's extents per axis are the
    /// base extent successively halved, floored at one.
    pub fn mipmap(&self, layer: u32, level: u32) -> (r: Option<TextureAnyMipmap<'_>>)
        requires
            self.spec_wf(),
        ensures
            r is Some <==> layer < spec_array_size_or_one(self.ty) && level < self.levels,
            r matches Some(m) ==> {
                &&& m.texture == self
                &&& m.layer == layer
                &&& m.level == level
                &&& m.width == spec_level_extent(self.ty.spec_width(), level)
                &&& m.height == match self.ty.spec_height() {
                    Some(h) => Some(spec_level_extent(h, level)),
                    None => None::<u32>,
                }
                &&& m.depth == match self.ty.spec_depth() {
                    Some(d) => Some(spec_level_extent(d, level)),
                    None => None::<u32>,
                }
            },
    {
        let bound = match self.get_array_size() {
            Some(a) => a,
            None => 1,
        };
        if layer >= bound {
            return None;
        }
        if level >= self.levels {
            return None;
        }
        let width = level_extent(self.get_width(), level);
        let height = match self.get_height() {
            Some(h) => Some(level_extent(h, level)),
            None => None,
        };
        let depth = match self.get_depth() {
            Some(d) => Some(level_extent(d, level)),
            None => None,
        };
        Some(TextureAnyMipmap { texture: self, layer, level, width, height, depth })
    }

    /// The outcome a storage-format query on this texture would have.
    pub open spec fn spec_format_lookup(ctxt: DeviceContext, id: u32) -> Result<
        InternalFormat,
        GetFormatError,
    > {
        let code = ctxt.spec_storage(id).internal_code;
        match InternalFormat::spec_from_code(code) {
            Some(f) => Ok(f),
            None => Err(GetFormatError::UnknownFormat(code)),
        }
    }

    /// What `get_internal_format` returns: the cached outcome where one is
    /// cached, else the outcome of one driver query.
    pub open spec fn spec_format_result(t: TextureAny, ctxt: DeviceContext) -> Result<
        InternalFormat,
        GetFormatError,
    > {
        match t.actual_format {
            Some(r) => r,
            None => Self::spec_format_lookup(ctxt, t.id),
        }
    }

    /// How many driver queries the context has seen after one
    /// `get_internal_format` call: none where the cache was filled, one
    /// where it was empty.
    pub open spec fn spec_queries_after(t: TextureAny, ctxt: DeviceContext) -> int {
        if t.actual_format is Some {
            ctxt.format_queries as int
        } else {
            ctxt.format_queries + 1
        }
    }

    /// Determines the storage format of this texture. The first call
    /// queries the driver once and caches the outcome, success or failure;
    /// later calls return the cached outcome and query nothing. The cache
    /// moves from unknown to known once and never reverts.
    pub fn get_internal_format(&mut self, ctxt: &mut DeviceContext) -> (r: Result<
        InternalFormat,
        GetFormatError,
    >)
        requires
            old(ctxt).spec_live(old(self).id),
            old(ctxt).format_queries < u64::MAX,
        ensures
            r == Self::spec_format_result(*old(self), *old(ctxt)),
            final(self).actual_format == Some(r),
            final(self).id == old(self).id,
            final(self).requested_format == old(self).requested_format,
            final(self).ty == old(self).ty,
            final(self).levels == old(self).levels,
            final(self).generate_mipmaps == old(self).generate_mipmaps,
            final(ctxt).format_queries == Self::spec_queries_after(*old(self), *old(ctxt)),
            old(self).actual_format is Some ==> *final(ctxt) == *old(ctxt) && *final(self) == *old(
                self,
            ),
            final(ctxt).version == old(ctxt).version,
            final(ctxt).extensions == old(ctxt).extensions,
            final(ctxt).active_texture == old(ctxt).active_texture,
            final(ctxt).texture_units == old(ctxt).texture_units,
            final(ctxt).pixel_store_unpack_alignment == old(ctxt).pixel_store_unpack_alignment,
            final(ctxt).pixel_store_pack_alignment == old(ctxt).pixel_store_pack_alignment,
            final(ctxt).textures == old(ctxt).textures,
            final(ctxt).attachments == old(ctxt).attachments,
            final(ctxt).bind_calls == old(ctxt).bind_calls,
            final(ctxt).mipmap_generations == old(ctxt).mipmap_generations,
    {
        match self.actual_format {
            Some(cached) => cached,
            None => {
                let code = ctxt.query_internal_format(self.id);
                let outcome = match InternalFormat::from_code(code) {
                    Some(f) => Ok(f),
                    None => Err(GetFormatError::UnknownFormat(code)),
                };
                self.actual_format = Some(outcome);
                outcome
            },
        }
    }
}

/// Whether one extent passes the legacy extent check: a zero extent always
/// does (it denotes a valid empty allocation, never an extent refusal), and
/// a non-zero extent must be a power of two.
pub open spec fn spec_legacy_extent_ok(x: u32) -> bool {
    x == 0 || spec_is_power_of_two(x)
}

/// Whether an absent axis, or a present one, passes the legacy extent
/// check.
pub open spec fn spec_legacy_axis_ok(a: Option<u32>) -> bool {
    match a {
        Some(x) => spec_legacy_extent_ok(x),
        None => true,
    }
}

/// Whether the driver refuses these extents: only a strictly pre-2.0
/// desktop driver without the non-power-of-two extension does, and only
/// where some present non-zero extent is not a power of two.
pub open spec fn spec_dims_unsupported(v: Version, e: Extensions, ty: Dimensions) -> bool {
    (v.api == Api::Gl && v.major < 2) && !e.arb_texture_non_power_of_two && (
    !spec_legacy_extent_ok(ty.spec_width()) || !spec_legacy_axis_ok(ty.spec_height())
        || !spec_legacy_axis_ok(ty.spec_depth()) || !spec_legacy_axis_ok(ty.spec_array_size()))
}

/// Whether the driver offers immutable storage allocation.
pub open spec fn spec_storage_available(v: Version, e: Extensions) -> bool {
    spec_at_least(v, Api::Gl, 4, 2) || e.arb_texture_storage
}

/// The client format of the optional initial data.
pub open spec fn spec_client_of(data: Option<(ClientFormat, Vec<u8>)>) -> Option<ClientFormat> {
    match data {
        Some((cf, _)) => Some(cf),
        None => None,
    }
}

/// Whether creation takes the immutable-storage path: the negotiation
/// returned an allocation code and the driver offers storage allocation.
pub open spec fn spec_storage_path(
    v: Version,
    e: Extensions,
    client: Option<ClientFormat>,
    format: TextureFormatRequest,
) -> bool {
    spec_storage_available(v, e) && spec_format_request_result(v, e, client, format) matches Ok(
        (_, Some(_)),
    )
}

/// The storage format code creation allocates with: the sized allocation
/// code on the storage path, else the image-upload code.
pub open spec fn spec_internal_code_chosen(
    v: Version,
    e: Extensions,
    client: Option<ClientFormat>,
    format: TextureFormatRequest,
) -> u32 {
    match spec_format_request_result(v, e, client, format) {
        Ok((teximg, storage)) => if spec_storage_available(v, e) && storage is Some {
            storage->Some_0
        } else {
            teximg
        },
        Err(_) => 0u32,
    }
}

/// Whether a multisample allocation can proceed on this driver: immutable
/// storage with an allocation code, or the multisample image entry points.
pub open spec fn spec_ms_alloc_ok(
    v: Version,
    e: Extensions,
    client: Option<ClientFormat>,
    format: TextureFormatRequest,
) -> bool {
    spec_at_least(v, Api::Gl, 3, 2) || e.arb_texture_multisample || spec_storage_path(
        v,
        e,
        client,
        format,
    )
}

/// Whether mipmap generation runs at creation: asked for by the policy and
/// never attempted for depth or depth-and-stencil classes.
pub open spec fn spec_generate_at_creation(
    format: TextureFormatRequest,
    mipmaps: MipmapsOption,
) -> bool {
    mipmaps.spec_should_generate() && !format.spec_is_depth_class()
}

/// Whether the driver offers a mipmap-generation entry point.
pub open spec fn spec_generation_available(v: Version, e: Extensions) -> bool {
    spec_at_least(v, Api::Gl, 3, 0) || spec_at_least(v, Api::GlEs, 2, 0)
        || e.ext_framebuffer_object
}

/// Whether some present axis is zero: such a texture allocates extents of
/// one and transfers no data.
pub open spec fn spec_has_zero_axis(ty: Dimensions) -> bool {
    ty.spec_width() == 0 || ty.spec_height() == Some(0u32) || ty.spec_depth() == Some(0u32)
        || ty.spec_array_size() == Some(0u32)
}

/// The error a creation request is refused with, or `None` where it
/// succeeds: unsupported extents first, then a failed format negotiation
/// for the request or for the client data.
pub open spec fn spec_creation_error(
    v: Version,
    e: Extensions,
    data_client: Option<ClientFormat>,
    format: TextureFormatRequest,
    ty: Dimensions,
) -> Option<TextureCreationError> {
    if spec_dims_unsupported(v, e, ty) {
        Some(TextureCreationError::DimensionsNotSupported)
    } else if spec_format_request_result(v, e, data_client, format) is Err {
        Some(TextureCreationError::FormatNotSupported)
    } else if data_client matches Some(cf) && spec_client_format_result(v, e, cf, format) is Err {
        Some(TextureCreationError::FormatNotSupported)
    } else {
        None
    }
}

/// Whether an absent axis, a zero one, or a present power-of-two one
/// passes the legacy extent check.
fn legacy_axis_ok(a: Option<u32>) -> (r: bool)
    ensures
        r == spec_legacy_axis_ok(a),
{
    match a {
        Some(x) => x == 0 || crate::dimensions::is_power_of_two(x),
        None => true,
    }
}

/// The extent of the base level equals the base extent, floored at one.
proof fn lemma_level_extent_base(b: u32)
    ensures
        spec_level_extent(b, 0) == (if b == 0 {
            1u32
        } else {
            b
        }),
{
    assert(b >> 0u32 == b) by (bit_vector);
}

/// One freshly allocated mipmap level: the slice count and grid extents the
/// shape prescribes for the level, every texel zero, no compressed blob.
fn alloc_level(ty: Dimensions, level: u32) -> (ls: LevelStorage)
    requires
        level < 32,
    ensures
        spec_level_wf(ls, ty, level),
        ls.compressed is None,
        forall|k: int, j: int, i: int|
            0 <= k < ls.layers@.len() && 0 <= j < spec_grid_rows(ty, level) && 0 <= i
                < spec_grid_cols(ty, level) ==> (#[trigger] grid_view(ls.layers@[k])[j][i])
                == spec_default_texel(),
{
    let cols = level_extent(ty.width(), level);
    let rows: u32 = match ty {
        Dimensions::Texture1d { .. } => 1,
        Dimensions::Texture1dArray { array_size, .. } => array_size,
        Dimensions::Texture2d { height, .. } => level_extent(height, level),
        Dimensions::Texture2dArray { height, .. } => level_extent(height, level),
        Dimensions::Texture2dMultisample { height, .. } => level_extent(height, level),
        Dimensions::Texture2dMultisampleArray { height, .. } => level_extent(height, level),
        Dimensions::Texture3d { height, .. } => level_extent(height, level),
    };
    let slices: u32 = match ty {
        Dimensions::Texture2dArray { array_size, .. } => array_size,
        Dimensions::Texture2dMultisampleArray { array_size, .. } => array_size,
        Dimensions::Texture3d { depth, .. } => level_extent(depth, level),
        _ => 1,
    };
    let mut layers: Vec<Grid> = Vec::new();
    let mut k: u32 = 0;
    while k < slices
        invariant
            k <= slices,
            layers@.len() == k,
            forall|p: int|
                0 <= p < k ==> grid_wf(
                    grid_view(#[trigger] layers@[p]),
                    cols as nat,
                    rows as nat,
                ),
            forall|p: int, j: int, i: int|
                0 <= p < k && 0 <= j < rows && 0 <= i < cols ==> (#[trigger] grid_view(
                    layers@[p],
                )[j][i]) == spec_default_texel(),
        decreases slices - k,
    {
        layers.push(zero_grid(cols, rows));
        k = k + 1;
    }
    LevelStorage { layers, compressed: None }
}

/// A freshly allocated chain of `n` mipmap levels.
fn alloc_levels(ty: Dimensions, n: u32) -> (r: Vec<LevelStorage>)
    requires
        1 <= n <= 32,
    ensures
        r@.len() == n,
        forall|l: int| 0 <= l < n ==> spec_level_wf(#[trigger] r@[l], ty, l as u32),
        forall|l: int| 0 <= l < n ==> (#[trigger] r@[l]).compressed is None,
        forall|l: int, k: int, j: int, i: int|
            0 <= l < n && 0 <= k < r@[l].layers@.len() && 0 <= j < spec_grid_rows(ty, l as u32)
                && 0 <= i < spec_grid_cols(ty, l as u32) ==> (#[trigger] grid_view(
                r@[l].layers@[k],
            )[j][i]) == spec_default_texel(),
{
    let mut r: Vec<LevelStorage> = Vec::new();
    let mut l: u32 = 0;
    while l < n
        invariant
            n <= 32,
            l <= n,
            r@.len() == l,
            forall|p: int| 0 <= p < l ==> spec_level_wf(#[trigger] r@[p], ty, p as u32),
            forall|p: int| 0 <= p < l ==> (#[trigger] r@[p]).compressed is None,
            forall|p: int, k: int, j: int, i: int|
                0 <= p < l && 0 <= k < r@[p].layers@.len() && 0 <= j < spec_grid_rows(ty, p as u32)
                    && 0 <= i < spec_grid_cols(ty, p as u32) ==> (#[trigger] grid_view(
                    r@[p].layers@[k],
                )[j][i]) == spec_default_texel(),
        decreases n - l,
    {
        r.push(alloc_level(ty, l));
        l = l + 1;
    }
    r
}

/// The bytes one slice of initial data occupies at the base level.
pub open spec fn spec_slice_bytes(cf: ClientFormat, ty: Dimensions) -> nat {
    cf.spec_bytes_per_pixel() * spec_grid_cols(ty, 0) * spec_grid_rows(ty, 0)
}

/// Decodes initial data into the base level's slices: slice `k` holds the
/// `k`-th run of `w * rows` pixels of the data.
fn build_data_layers(fmt: ClientFormat, data: &Vec<u8>, w: u32, rows: u32, count: u32) -> (r: Vec<
    Grid,
>)
    requires
        !fmt.spec_is_compressed(),
        w >= 1,
        rows >= 1,
        count >= 1,
        fmt.spec_bytes_per_pixel() * (w as nat) * (rows as nat) * (count as nat) <= data@.len(),
    ensures
        r@.len() == count,
        forall|k: int|
            0 <= k < count ==> grid_view(#[trigger] r@[k]) == spec_decode(
                fmt,
                data@,
                k * (fmt.spec_bytes_per_pixel() * (w as nat) * (rows as nat)),
                w as nat,
                rows as nat,
            ),
        forall|k: int|
            0 <= k < count ==> grid_wf(grid_view(#[trigger] r@[k]), w as nat, rows as nat),
{
    let data_len: usize = data.len();
    let bpp: usize = match fmt {
        ClientFormat::U8 => 1,
        ClientFormat::U8U8 => 2,
        ClientFormat::U8U8U8 => 3,
        ClientFormat::U8U8U8U8 => 4,
        _ => 0,
    };
    let ghost sb = fmt.spec_bytes_per_pixel() * (w as nat) * (rows as nat);
    proof {
        assert(sb <= sb * (count as nat) && sb * 1 == sb) by (nonlinear_arith)
            requires
                count >= 1,
                sb >= 0,
        ;
        assert(fmt.spec_bytes_per_pixel() * (w as nat) * (rows as nat) * (count as nat) == sb * (
        count as nat));
        assert(fmt.spec_bytes_per_pixel() * (w as nat) <= sb) by (nonlinear_arith)
            requires
                rows >= 1,
                sb == fmt.spec_bytes_per_pixel() * (w as nat) * (rows as nat),
        ;
    }
    let sw: usize = bpp * (w as usize);
    let slice_bytes: usize = sw * (rows as usize);
    proof {
        assert(slice_bytes == sb);
    }
    let mut r: Vec<Grid> = Vec::new();
    let mut off: usize = 0;
    let mut k: u32 = 0;
    while k < count
        invariant
            !fmt.spec_is_compressed(),
            data_len == data@.len(),
            w >= 1,
            rows >= 1,
            count >= 1,
            sb == fmt.spec_bytes_per_pixel() * (w as nat) * (rows as nat),
            sb * (count as nat) <= data@.len(),
            slice_bytes == sb,
            k <= count,
            off == k * sb,
            r@.len() == k,
            forall|p: int|
                0 <= p < k ==> grid_view(#[trigger] r@[p]) == spec_decode(
                    fmt,
                    data@,
                    p * sb,
                    w as nat,
                    rows as nat,
                ),
            forall|p: int|
                0 <= p < k ==> grid_wf(grid_view(#[trigger] r@[p]), w as nat, rows as nat),
        decreases count - k,
    {
        proof {
            assert((k + 1) * sb <= (count as nat) * sb && k * sb + sb == (k + 1) * sb && (
            count as nat) * sb == sb * (count as nat)) by (nonlinear_arith)
                requires
                    0 <= k < count,
                    sb >= 0,
            ;
        }
        let g = crate::pixels::decode_grid(fmt, data, off, w, rows);
        proof {
            assert(grid_wf(grid_view(g), w as nat, rows as nat));
        }
        r.push(g);
        off = off + slice_bytes;
        k = k + 1;
    }
    r
}

/// Everything a successful creation establishes: the texture's fields, its
/// validity in the new context, the chosen allocation strategy and storage
/// shape, the base level's contents, and the context's shadow-state
/// updates, with every other texture and every unrelated field unchanged.
pub open spec fn spec_creation_effect(
    t: TextureAny,
    c0: DeviceContext,
    c1: DeviceContext,
    format: TextureFormatRequest,
    data: Option<(ClientFormat, Vec<u8>)>,
    mipmaps: MipmapsOption,
    ty: Dimensions,
) -> bool {
    {
        let v = c0.version;
        let ex = c0.extensions;
        let client = spec_client_of(data);
        let storage_path = spec_storage_path(v, ex, client, format);
        let generate = spec_generate_at_creation(format, mipmaps);
        let st = c1.spec_storage(t.id);
        &&& t.id == c0.textures@.len() + 1
        &&& t.requested_format == format
        &&& t.actual_format is None
        &&& t.ty == ty
        &&& t.levels == mipmaps.spec_num_levels(
            ty.spec_width(),
            ty.spec_height(),
            ty.spec_depth(),
        )
        &&& t.generate_mipmaps == mipmaps.spec_should_generate()
        &&& t.spec_valid(c1)
        &&& c1.textures@.len() == c0.textures@.len() + 1
        &&& forall|n: u32|
            c0.spec_live(n) ==> c1.spec_live(n) && c1.spec_storage(n)
                == c0.spec_storage(n)
        &&& st.immutable == storage_path
        &&& st.internal_code == spec_internal_code_chosen(v, ex, client, format)
        &&& st.compressed_storage == (ClientFormat::spec_from_internal_compressed_format(
            st.internal_code,
        ) is Some)
        &&& st.levels@.len() == (if storage_path || generate {
            t.levels as int
        } else {
            1int
        })
        &&& (data matches Some((cf, d)) ==> {
            &&& (!cf.spec_is_compressed() && !spec_has_zero_axis(ty) ==> (forall|k: int|
                0 <= k < st.levels@[0].layers@.len() ==> grid_view(
                    #[trigger] st.levels@[0].layers@[k],
                ) == spec_decode(
                    cf,
                    d@,
                    k * spec_slice_bytes(cf, ty),
                    spec_grid_cols(ty, 0),
                    spec_grid_rows(ty, 0),
                )))
            &&& (cf.spec_is_compressed() && !spec_has_zero_axis(ty)
                ==> (st.levels@[0].compressed matches Some(b) && b@ == d@))
        })
        &&& ((spec_client_of(data) is None || spec_has_zero_axis(ty))
            ==> st.levels@[0].compressed is None)
        &&& c1.texture_units@ == c0.texture_units@.update(
            c0.active_texture as int,
            t.id,
        )
        &&& c1.pixel_store_unpack_alignment == 1
        &&& c1.mipmap_generations == c0.mipmap_generations + (if generate {
            1int
        } else {
            0int
        })
        &&& c0.bind_calls <= c1.bind_calls <= c0.bind_calls + 1
        &&& c1.version == c0.version
        &&& c1.extensions == c0.extensions
        &&& c1.active_texture == c0.active_texture
        &&& c1.pixel_store_pack_alignment == c0.pixel_store_pack_alignment
        &&& c1.attachments == c0.attachments
        &&& c1.format_queries == c0.format_queries
        &&& c1.spec_wf()
    }
}

/// Builds a new texture.
///
/// The algorithm: refuse non-power-of-two extents on drivers that cannot
/// take them, resolve the mipmap level count from the policy, negotiate the
/// format codes, choose immutable storage where the driver offers it and
/// the negotiation returned an allocation code (a legacy image allocation
/// of the base level otherwise), allocate, upload the initial data into the
/// base level, and generate mipmaps where the policy asks and the format
/// class allows. A zero extent allocates as one and transfers no data.
/// Both refusals happen before any driver handle is allocated.
pub fn new_texture(
    ctxt: &mut DeviceContext,
    format: TextureFormatRequest,
    data: Option<(ClientFormat, Vec<u8>)>,
    mipmaps: MipmapsOption,
    ty: Dimensions,
) -> (r: Result<TextureAny, TextureCreationError>)
    requires
        old(ctxt).spec_wf(),
        old(ctxt).textures@.len() < u32::MAX,
        old(ctxt).bind_calls < u64::MAX,
        old(ctxt).mipmap_generations < u64::MAX,
        data matches Some((cf, d)) ==> d@.len() == cf.spec_buffer_size(
            ty.spec_width(),
            ty.spec_height(),
            ty.spec_depth(),
            ty.spec_array_size(),
        ),
        ty.spec_is_multisample() ==> data is None,
        ty.spec_is_multisample() ==> spec_ms_alloc_ok(
            old(ctxt).version,
            old(ctxt).extensions,
            spec_client_of(data),
            format,
        ),
        spec_generate_at_creation(format, mipmaps) ==> spec_generation_available(
            old(ctxt).version,
            old(ctxt).extensions,
        ),
        mipmaps matches MipmapsOption::EmptyMipmaps(n) ==> 1 <= n <= 32,
    ensures
        r is Err <==> spec_creation_error(
            old(ctxt).version,
            old(ctxt).extensions,
            spec_client_of(data),
            format,
            ty,
        ) is Some,
        r matches Err(e) ==> Some(e) == spec_creation_error(
            old(ctxt).version,
            old(ctxt).extensions,
            spec_client_of(data),
            format,
            ty,
        ) && *final(ctxt) == *old(ctxt),
        r matches Ok(t) ==> spec_creation_effect(t, *old(ctxt), *final(ctxt), format, data, mipmaps, ty),
{
    let width = ty.width();
    let height = ty.height();
    let depth = ty.depth();
    let array_size = ty.array_size();

    // Legacy drivers refuse non-power-of-two extents; a zero extent is a
    // valid empty allocation and passes.
    if ctxt.version.api == Api::Gl && ctxt.version.major < 2
        && !ctxt.extensions.arb_texture_non_power_of_two {
        if !(width == 0 || crate::dimensions::is_power_of_two(width)) || !legacy_axis_ok(height)
            || !legacy_axis_ok(depth) || !legacy_axis_ok(array_size) {
            return Err(TextureCreationError::DimensionsNotSupported);
        }
    }

    let generate = mipmaps.should_generate();
    let texture_levels = mipmaps.num_levels(width, height, depth);

    let client_fmt = match &data {
        Some((cf, _)) => Some(*cf),
        None => None,
    };
    let (teximg_code, storage_code) = match format_request_to_glenum(
        &ctxt.version,
        &ctxt.extensions,
        client_fmt,
        format,
    ) {
        Ok(p) => p,
        Err(_) => {
            return Err(TextureCreationError::FormatNotSupported);
        },
    };
    match &data {
        Some((cf, _)) => {
            match client_format_to_glenum(&ctxt.version, &ctxt.extensions, *cf, format) {
                Ok(_) => (),
                Err(_) => {
                    return Err(TextureCreationError::FormatNotSupported);
                },
            }
        },
        None => (),
    }

    let storage_available = ctxt.version.is_at_least(Api::Gl, 4, 2)
        || ctxt.extensions.arb_texture_storage;
    let (storage_path, internal_code) = match storage_code {
        Some(code) => if storage_available {
            (true, code)
        } else {
            (false, teximg_code)
        },
        None => (false, teximg_code),
    };
    let compressed_storage = match ClientFormat::from_internal_compressed_format(internal_code) {
        Some(_) => true,
        None => false,
    };
    let generate_now = generate && !format.is_depth_class();

    let alloc_count: u32 = if storage_path || generate_now {
        texture_levels
    } else {
        1
    };
    let mut levels_vec = alloc_levels(ty, alloc_count);

    let zero_axis = width == 0 || height == Some(0) || depth == Some(0) || array_size == Some(0);
    match &data {
        Some((cf, bytes)) => {
            if !zero_axis {
                if cf.is_compressed() {
                    let blob = crate::context::copy_bytes(bytes);
                    let l0 = &mut levels_vec[0];
                    l0.compressed = Some(blob);
                } else {
                    let rows: u32 = match ty {
                        Dimensions::Texture1d { .. } => 1,
                        Dimensions::Texture1dArray { array_size, .. } => array_size,
                        Dimensions::Texture2d { height, .. } => height,
                        Dimensions::Texture2dArray { height, .. } => height,
                        Dimensions::Texture2dMultisample { height, .. } => height,
                        Dimensions::Texture2dMultisampleArray { height, .. } => height,
                        Dimensions::Texture3d { height, .. } => height,
                    };
                    let count: u32 = match ty {
                        Dimensions::Texture2dArray { array_size, .. } => array_size,
                        Dimensions::Texture2dMultisampleArray { array_size, .. } => array_size,
                        Dimensions::Texture3d { depth, .. } => depth,
                        _ => 1,
                    };
                    proof {
                        lemma_level_extent_base(ty.spec_width());
                        lemma_level_extent_base(rows);
                        lemma_level_extent_base(count);
                        match ty.spec_height() {
                            Some(h) => lemma_level_extent_base(h),
                            None => (),
                        }
                        match ty.spec_depth() {
                            Some(d) => lemma_level_extent_base(d),
                            None => (),
                        }
                        lemma_buffer_size_as_slices(*cf, ty);
                    }
                    let layers = build_data_layers(*cf, bytes, width, rows, count);
                    let l0 = &mut levels_vec[0];
                    l0.layers = layers;
                }
            }
        },
        None => (),
    }

    let st = TextureStorage {
        internal_code,
        compressed_storage,
        immutable: storage_path,
        levels: levels_vec,
    };
    let id = ctxt.alloc_texture(st);
    ctxt.set_unpack_alignment(1);
    ctxt.bind_texture(id);
    if generate_now {
        ctxt.generate_mipmap();
    }

    Ok(
        TextureAny {
            id,
            requested_format: format,
            actual_format: None,
            ty,
            levels: texture_levels,
            generate_mipmaps: generate,
        },
    )
}

/// With no zero axis, the client buffer size equals the base level's slice
/// size times the slice count.
proof fn lemma_buffer_size_as_slices(cf: ClientFormat, ty: Dimensions)
    requires
        !cf.spec_is_compressed(),
        !spec_has_zero_axis(ty),
    ensures
        cf.spec_buffer_size(
            ty.spec_width(),
            ty.spec_height(),
            ty.spec_depth(),
            ty.spec_array_size(),
        ) == cf.spec_bytes_per_pixel() * spec_grid_cols(ty, 0) * spec_grid_rows(ty, 0)
            * spec_slice_count(ty, 0),
        spec_grid_cols(ty, 0) == ty.spec_width() as nat,
        spec_grid_cols(ty, 0) >= 1,
        spec_grid_rows(ty, 0) >= 1,
        spec_slice_count(ty, 0) >= 1,
{
    lemma_level_extent_base(ty.spec_width());
    match ty.spec_height() {
        Some(h) => lemma_level_extent_base(h),
        None => (),
    }
    match ty.spec_depth() {
        Some(d) => lemma_level_extent_base(d),
        None => (),
    }
    let bpp = cf.spec_bytes_per_pixel();
    let w = ty.spec_width() as nat;
    let h = crate::image_format::spec_axis_or_one(ty.spec_height());
    let d = crate::image_format::spec_axis_or_one(ty.spec_depth());
    let a = crate::image_format::spec_axis_or_one(ty.spec_array_size());
    assert(cf.spec_buffer_size(
        ty.spec_width(),
        ty.spec_height(),
        ty.spec_depth(),
        ty.spec_array_size(),
    ) == (((bpp * w) * h) * d) * a);
    match ty {
        Dimensions::Texture1d { .. } => {
            assert((((bpp * w) * 1) * 1) * 1 == bpp * w * 1 * 1) by (nonlinear_arith);
        },
        Dimensions::Texture1dArray { array_size, .. } => {
            assert((((bpp * w) * 1) * 1) * (array_size as nat) == bpp * w * (array_size as nat)
                * 1) by (nonlinear_arith);
        },
        Dimensions::Texture2d { height, .. } => {
            assert((((bpp * w) * (height as nat)) * 1) * 1 == bpp * w * (height as nat) * 1)
                by (nonlinear_arith);
        },
        Dimensions::Texture2dArray { height, array_size, .. } => {
            assert((((bpp * w) * (height as nat)) * 1) * (array_size as nat) == bpp * w * (
            height as nat) * (array_size as nat)) by (nonlinear_arith);
        },
        Dimensions::Texture2dMultisample { height, .. } => {
            assert((((bpp * w) * (height as nat)) * 1) * 1 == bpp * w * (height as nat) * 1)
                by (nonlinear_arith);
        },
        Dimensions::Texture2dMultisampleArray { height, array_size, .. } => {
            assert((((bpp * w) * (height as nat)) * 1) * (array_size as nat) == bpp * w * (
            height as nat) * (array_size as nat)) by (nonlinear_arith);
        },
        Dimensions::Texture3d { height, depth, .. } => {
            assert((((bpp * w) * (height as nat)) * (depth as nat)) * 1 == bpp * w * (
            height as nat) * (depth as nat)) by (nonlinear_arith);
        },
    }
}

/// Everything a successful upload establishes: the written rectangle (or
/// replaced compressed blob) of the addressed level, the binding and
/// alignment shadow updates, the mipmap regeneration where it applies, and
/// every other level, texture and field unchanged.
pub open spec fn spec_upload_effect(
    view: TextureAnyMipmap<'_>,
    c0: DeviceContext,
    c1: DeviceContext,
    x_offset: u32,
    y_offset: u32,
    format: ClientFormat,
    data: Seq<u8>,
    width: u32,
    height: Option<u32>,
    regen_mipmaps: bool,
) -> bool {
    {
            let id = view.texture.id;
            let st0 = c0.spec_storage(id);
            let st1 = c1.spec_storage(id);
            let h1 = spec_view_axis_or_one(height);
            &&& c1.spec_live(id)
            &&& view.texture.spec_valid(c1)
            &&& c1.textures@.len() == c0.textures@.len()
            &&& forall|n: u32|
                n != id && c0.spec_live(n) ==> c1.spec_live(n)
                    && c1.spec_storage(n) == c0.spec_storage(n)
            &&& st1.internal_code == st0.internal_code
            &&& st1.compressed_storage == st0.compressed_storage
            &&& st1.immutable == st0.immutable
            &&& st1.levels@.len() == st0.levels@.len()
            &&& forall|l: int|
                0 <= l < st0.levels@.len() && l != view.level ==> st1.levels@[l]
                    == st0.levels@[l]
            &&& st1.levels@[view.level as int].layers@.len() == st0.levels@[
                view.level as int
            ].layers@.len()
            &&& forall|k: int|
                1 <= k < st0.levels@[view.level as int].layers@.len() ==> st1.levels@[
                    view.level as int
                ].layers@[k] == st0.levels@[view.level as int].layers@[k]
            &&& (!format.spec_is_compressed() ==> grid_view(
                st1.levels@[view.level as int].layers@[0],
            ) == crate::pixels::spec_blit(
                grid_view(st0.levels@[view.level as int].layers@[0]),
                x_offset as nat,
                y_offset as nat,
                spec_decode(format, data, 0, width as nat, h1 as nat),
                width as nat,
                h1 as nat,
            ) && st1.levels@[view.level as int].compressed == st0.levels@[
                view.level as int
            ].compressed)
            &&& (format.spec_is_compressed() ==> (st1.levels@[view.level as int].compressed
                matches Some(b) && b@ == data) && st1.levels@[view.level as int].layers
                == st0.levels@[view.level as int].layers)
            &&& c1.texture_units@ == c0.texture_units@.update(
                c0.active_texture as int,
                id,
            )
            &&& c0.bind_calls <= c1.bind_calls <= c0.bind_calls + 1
            &&& c1.pixel_store_unpack_alignment == 1
            &&& c1.mipmap_generations == c0.mipmap_generations + (
            if spec_regen_effective(*view.texture, format, regen_mipmaps) {
                1int
            } else {
                0int
            })
            &&& c1.version == c0.version
            &&& c1.extensions == c0.extensions
            &&& c1.active_texture == c0.active_texture
            &&& c1.pixel_store_pack_alignment == c0.pixel_store_pack_alignment
            &&& c1.attachments == c0.attachments
            &&& c1.format_queries == c0.format_queries
    }
}

/// A host-resident block of pixel data read back from a texture: raw bytes
/// with the rectangle's extents.
pub struct RawImage {
    pub data: Vec<u8>,
    pub width: u32,
    pub height: u32,
}

/// A device-resident pixel buffer filled by a read that avoids the host
/// round-trip; `size` is its byte capacity.
pub struct PixelBuffer {
    pub size: usize,
    pub data: Vec<u8>,
}

/// An absent per-level axis counts as one.
pub open spec fn spec_view_axis_or_one(a: Option<u32>) -> u32 {
    match a {
        Some(x) => x,
        None => 1u32,
    }
}

/// Whether an upload regenerates the mipmap chain afterwards: asked for,
/// on a texture with at least two levels created with auto-generation, and
/// never for compressed client data.
pub open spec fn spec_regen_effective(t: TextureAny, fmt: ClientFormat, regen: bool) -> bool {
    regen && t.levels >= 2 && t.generate_mipmaps && !fmt.spec_is_compressed()
}

impl<'a> TextureAnyMipmap<'a> {
    /// The view invariant: in-range layer and level, and extents resolved
    /// from the texture's base extents for the level. `mipmap` establishes
    /// it.
    pub open spec fn spec_wf(self) -> bool {
        &&& self.texture.spec_wf()
        &&& self.layer < spec_array_size_or_one(self.texture.ty)
        &&& self.level < self.texture.levels
        &&& self.width == spec_level_extent(self.texture.ty.spec_width(), self.level)
        &&& self.height == (match self.texture.ty.spec_height() {
            Some(h) => Some(spec_level_extent(h, self.level)),
            None => None::<u32>,
        })
        &&& self.depth == (match self.texture.ty.spec_depth() {
            Some(d) => Some(spec_level_extent(d, self.level)),
            None => None::<u32>,
        })
    }

    /// The texture the view borrows.
    pub fn get_texture(&self) -> (r: &'a TextureAny)
        ensures
            r == self.texture,
    {
        self.texture
    }

    /// The view's mipmap level.
    pub fn get_level(&self) -> (r: u32)
        ensures
            r == self.level,
    {
        self.level
    }

    /// The view's layer.
    pub fn get_layer(&self) -> (r: u32)
        ensures
            r == self.layer,
    {
        self.layer
    }

    /// The view's resolved width.
    pub fn get_width(&self) -> (r: u32)
        ensures
            r == self.width,
    {
        self.width
    }

    /// The view's resolved height, absent where the shape class has none.
    pub fn get_height(&self) -> (r: Option<u32>)
        ensures
            r == self.height,
    {
        self.height
    }

    /// The view's resolved depth, absent where the shape class has none.
    pub fn get_depth(&self) -> (r: Option<u32>)
        ensures
            r == self.depth,
    {
        self.depth
    }

    /// The rows of texels this view reads: its whole rectangle, one row of
    /// the shared grid for a layer of an array of one-dimensional textures.
    pub open spec fn spec_view_rows(self, ctxt: DeviceContext) -> Seq<Seq<crate::pixels::Texel>> {
        let ls = ctxt.spec_storage(self.texture.id).levels@[self.level as int];
        match self.texture.ty {
            Dimensions::Texture1dArray { .. } => grid_view(ls.layers@[0]).subrange(
                self.layer as int,
                self.layer + 1,
            ),
            _ => grid_view(ls.layers@[self.layer as int]),
        }
    }

    /// Reads this view's whole rectangle back to host memory by staging the
    /// slice as a framebuffer attachment; the registry caches the staged
    /// attachment, and nothing else of the context changes.
    pub fn read(&self, ctxt: &mut DeviceContext) -> (r: RawImage)
        requires
            self.spec_wf(),
            self.texture.spec_valid(*old(ctxt)),
            (self.level as int) < old(ctxt).spec_storage(self.texture.id).levels@.len(),
        ensures
            r.width == self.width,
            r.height == spec_view_axis_or_one(self.height),
            r.data@ == crate::pixels::spec_encode(
                self.spec_view_rows(*old(ctxt)),
                self.width as nat,
            ),
            ({
                let att = crate::context::Attachment {
                    texture: self.texture.id,
                    layer: self.layer,
                    level: self.level,
                };
                final(ctxt).attachments@ == if old(ctxt).attachments@.contains(att) {
                    old(ctxt).attachments@
                } else {
                    old(ctxt).attachments@.push(att)
                }
            }),
            final(ctxt).version == old(ctxt).version,
            final(ctxt).extensions == old(ctxt).extensions,
            final(ctxt).active_texture == old(ctxt).active_texture,
            final(ctxt).texture_units == old(ctxt).texture_units,
            final(ctxt).pixel_store_unpack_alignment == old(ctxt).pixel_store_unpack_alignment,
            final(ctxt).pixel_store_pack_alignment == old(ctxt).pixel_store_pack_alignment,
            final(ctxt).textures == old(ctxt).textures,
            final(ctxt).bind_calls == old(ctxt).bind_calls,
            final(ctxt).format_queries == old(ctxt).format_queries,
            final(ctxt).mipmap_generations == old(ctxt).mipmap_generations,
    {
        let texture = self.texture;
        ctxt.stage_attachment(
            crate::context::Attachment {
                texture: texture.id,
                layer: self.layer,
                level: self.level,
            },
        );
        let h1: u32 = match self.height {
            Some(h) => h,
            None => 1,
        };
        let is_1d_array = match texture.ty {
            Dimensions::Texture1dArray { .. } => true,
            _ => false,
        };
        let slice: usize = if is_1d_array {
            0
        } else {
            self.layer as usize
        };
        let row0: usize = if is_1d_array {
            self.layer as usize
        } else {
            0
        };
        let nrows: usize = h1 as usize;
        let level = self.level as usize;
        proof {
            assert(spec_level_wf(
                old(ctxt).spec_storage(texture.id).levels@[level as int],
                texture.ty,
                self.level,
            ));
        }
        let grid: &Grid = ctxt.level_grid(texture.id, level, slice);
        proof {
            lemma_view_rows_in_grid(*self, *old(ctxt));
        }
        let bytes = crate::pixels::encode_rows(grid, self.width, row0, nrows);
        proof {
            assert(grid_view(*grid).subrange(row0 as int, row0 + nrows) =~= self.spec_view_rows(
                *old(ctxt),
            ));
        }
        RawImage { data: bytes, width: self.width, height: h1 }
    }

    /// Reads this view's whole rectangle into a device-resident pixel
    /// buffer of `width * height * 4` bytes, avoiding the host round-trip.
    pub fn read_to_pixel_buffer(&self, ctxt: &mut DeviceContext) -> (pb: PixelBuffer)
        requires
            self.spec_wf(),
            self.texture.spec_valid(*old(ctxt)),
            (self.level as int) < old(ctxt).spec_storage(self.texture.id).levels@.len(),
            (self.width as int) * (spec_view_axis_or_one(self.height) as int) * 4 <= usize::MAX,
        ensures
            pb.size == (self.width as int) * (spec_view_axis_or_one(self.height) as int) * 4,
            pb.data@ == crate::pixels::spec_encode(
                self.spec_view_rows(*old(ctxt)),
                self.width as nat,
            ),
            ({
                let att = crate::context::Attachment {
                    texture: self.texture.id,
                    layer: self.layer,
                    level: self.level,
                };
                final(ctxt).attachments@ == if old(ctxt).attachments@.contains(att) {
                    old(ctxt).attachments@
                } else {
                    old(ctxt).attachments@.push(att)
                }
            }),
            final(ctxt).version == old(ctxt).version,
            final(ctxt).extensions == old(ctxt).extensions,
            final(ctxt).active_texture == old(ctxt).active_texture,
            final(ctxt).texture_units == old(ctxt).texture_units,
            final(ctxt).pixel_store_unpack_alignment == old(ctxt).pixel_store_unpack_alignment,
            final(ctxt).pixel_store_pack_alignment == old(ctxt).pixel_store_pack_alignment,
            final(ctxt).textures == old(ctxt).textures,
            final(ctxt).bind_calls == old(ctxt).bind_calls,
            final(ctxt).format_queries == old(ctxt).format_queries,
            final(ctxt).mipmap_generations == old(ctxt).mipmap_generations,
    {
        let h1: u32 = match self.height {
            Some(h) => h,
            None => 1,
        };
        let size: usize = (self.width as usize) * (h1 as usize) * 4;
        let img = self.read(ctxt);
        PixelBuffer { size, data: img.data }
    }

    /// Uploads client data into a sub-region of this view. The offsets and
    /// extents must stay inside the view, the data length must equal the
    /// exact buffer size for the client format, and a requested mipmap
    /// regeneration demands the base level, whether or not regeneration
    /// would run. Only the two-dimensional and
    /// one-dimensional-array shape classes support sub-region upload.
    /// Returns `Err` exactly where the client format negotiation fails, in
    /// which case nothing is changed. Regeneration runs only where it was
    /// requested, the texture has at least two levels, was created with
    /// auto-generation, and the client data is uncompressed; it is skipped
    /// silently otherwise.
    pub fn upload_texture(
        &self,
        ctxt: &mut DeviceContext,
        x_offset: u32,
        y_offset: u32,
        z_offset: u32,
        format: ClientFormat,
        data: &Vec<u8>,
        width: u32,
        height: Option<u32>,
        depth: Option<u32>,
        regen_mipmaps: bool,
    ) -> (r: Result<(), ()>)
        requires
            self.spec_wf(),
            self.texture.spec_valid(*old(ctxt)),
            old(ctxt).spec_wf(),
            old(ctxt).bind_calls < u64::MAX,
            old(ctxt).mipmap_generations < u64::MAX,
            (self.level as int) < old(ctxt).spec_storage(self.texture.id).levels@.len(),
            data@.len() == format.spec_buffer_size(width, height, depth, None),
            regen_mipmaps ==> self.level == 0,
            x_offset + width <= self.width,
            y_offset + spec_view_axis_or_one(height) <= spec_view_axis_or_one(self.height),
            z_offset + spec_view_axis_or_one(depth) <= spec_view_axis_or_one(self.depth),
            spec_view_axis_or_one(depth) == 1,
            self.texture.ty matches Dimensions::Texture2d { .. } || self.texture.ty
                matches Dimensions::Texture1dArray { .. },
        ensures
            r is Err <==> spec_client_format_result(
                old(ctxt).version,
                old(ctxt).extensions,
                format,
                self.texture.requested_format,
            ) is Err,
            r is Err ==> *final(ctxt) == *old(ctxt),
            r is Ok ==> spec_upload_effect(*self, *old(ctxt), *final(ctxt), x_offset, y_offset, format, data@, width, height, regen_mipmaps),
    {
        let texture = self.texture;
        match client_format_to_glenum(
            &ctxt.version,
            &ctxt.extensions,
            format,
            texture.requested_format,
        ) {
            Ok(_) => (),
            Err(_) => {
                return Err(());
            },
        }
        let regen = regen_mipmaps && texture.levels >= 2 && texture.generate_mipmaps
            && !format.is_compressed();
        ctxt.set_unpack_alignment(1);
        let _bind_point = texture.bind_to_current(ctxt);
        let level = self.level as usize;
        let h1: u32 = match height {
            Some(h) => h,
            None => 1,
        };
        if format.is_compressed() {
            ctxt.compressed_tex_sub_image_2d(texture.id, level, data);
        } else {
            let (dw, dh): (u32, u32) = match texture.ty {
                Dimensions::Texture1dArray { array_size, .. } => (self.width, array_size),
                _ => (
                    self.width,
                    match self.height {
                        Some(h) => h,
                        None => 1,
                    },
                ),
            };
            proof {
                lemma_upload_grid_dims(*self, *old(ctxt), dw, dh, h1, width, y_offset);
            }
            ctxt.tex_sub_image_2d(
                texture.id,
                level,
                x_offset,
                y_offset,
                format,
                data,
                width,
                h1,
                dw,
                dh,
            );
        }
        if regen {
            ctxt.generate_mipmap();
        }
        Ok(())
    }

    /// Queries whether this level is stored block-compressed; where it is
    /// and the storage code maps to a known client format, returns that
    /// format with the level's compressed bytes (what the last compressed
    /// upload stored, or empty where none did). An uncompressed level and
    /// an unrecognized storage code both give `None`: neither is an error.
    /// `dest_addr` is the base address of the host buffer the caller will
    /// place the bytes at; before the read, the driver-to-client row
    /// alignment is stepped down to one that divides it (trying eight,
    /// four, two, one), and the shadow keeps the value given to the driver.
    pub fn download_compressed_data(&self, ctxt: &mut DeviceContext, dest_addr: usize) -> (r:
        Option<(ClientFormat, Vec<u8>)>)
        requires
            self.spec_wf(),
            self.texture.spec_valid(*old(ctxt)),
            old(ctxt).spec_wf(),
            old(ctxt).bind_calls < u64::MAX,
            (self.level as int) < old(ctxt).spec_storage(self.texture.id).levels@.len(),
            old(ctxt).pixel_store_pack_alignment == 1 || old(ctxt).pixel_store_pack_alignment == 2
                || old(ctxt).pixel_store_pack_alignment == 4
                || old(ctxt).pixel_store_pack_alignment == 8,
        ensures
            ({
                let st = old(ctxt).spec_storage(self.texture.id);
                &&& (r is None <==> (!st.compressed_storage
                    || ClientFormat::spec_from_internal_compressed_format(st.internal_code)
                        is None))
                &&& (r matches Some((f, b)) ==> Some(f)
                    == ClientFormat::spec_from_internal_compressed_format(st.internal_code) && b@
                    == (match st.levels@[self.level as int].compressed {
                    Some(blob) => blob@,
                    None => Seq::<u8>::empty(),
                }))
            }),
            final(ctxt).texture_units@ == old(ctxt).texture_units@.update(
                old(ctxt).active_texture as int,
                self.texture.id,
            ),
            old(ctxt).bind_calls <= final(ctxt).bind_calls <= old(ctxt).bind_calls + 1,
            r is Some ==> final(ctxt).pixel_store_pack_alignment == spec_select_pack_alignment(
                dest_addr,
                old(ctxt).pixel_store_pack_alignment,
            ) && dest_addr as int % (final(ctxt).pixel_store_pack_alignment as int) == 0
                && final(ctxt).pixel_store_pack_alignment <= 8,
            r is None ==> final(ctxt).pixel_store_pack_alignment == old(
                ctxt,
            ).pixel_store_pack_alignment,
            final(ctxt).version == old(ctxt).version,
            final(ctxt).extensions == old(ctxt).extensions,
            final(ctxt).active_texture == old(ctxt).active_texture,
            final(ctxt).pixel_store_unpack_alignment == old(ctxt).pixel_store_unpack_alignment,
            final(ctxt).textures == old(ctxt).textures,
            final(ctxt).attachments == old(ctxt).attachments,
            final(ctxt).format_queries == old(ctxt).format_queries,
            final(ctxt).mipmap_generations == old(ctxt).mipmap_generations,
    {
        let texture = self.texture;
        let _bind_point = texture.bind_to_current(ctxt);
        let (is_compressed, code) = ctxt.level_compressed_info(texture.id);
        if is_compressed {
            match ClientFormat::from_internal_compressed_format(code) {
                Some(known_format) => {
                    let alignment = select_pack_alignment(
                        dest_addr,
                        ctxt.pixel_store_pack_alignment,
                    );
                    ctxt.set_pack_alignment(alignment);
                    let buf = ctxt.get_compressed_image(texture.id, self.level as usize);
                    Some((known_format, buf))
                },
                None => None,
            }
        } else {
            None
        }
    }
}

/// The rows a view reads lie inside its level's grid.
proof fn lemma_view_rows_in_grid(view: TextureAnyMipmap<'_>, ctxt: DeviceContext)
    requires
        view.spec_wf(),
        view.texture.spec_valid(ctxt),
        (view.level as int) < ctxt.spec_storage(view.texture.id).levels@.len(),
    ensures
        ({
            let ls = ctxt.spec_storage(view.texture.id).levels@[view.level as int];
            let is_1d_array = view.texture.ty matches Dimensions::Texture1dArray { .. };
            let slice: int = if is_1d_array {
                0
            } else {
                view.layer as int
            };
            let row0: int = if is_1d_array {
                view.layer as int
            } else {
                0int
            };
            let nrows: int = spec_view_axis_or_one(view.height) as int;
            &&& 0 <= slice < ls.layers@.len()
            &&& row0 + nrows <= grid_view(ls.layers@[slice]).len()
            &&& forall|j: int|
                0 <= j < grid_view(ls.layers@[slice]).len() ==> (#[trigger] grid_view(
                    ls.layers@[slice],
                )[j]).len() == view.width
        }),
{
    let ls = ctxt.spec_storage(view.texture.id).levels@[view.level as int];
    assert(spec_level_wf(ls, view.texture.ty, view.level));
    match view.texture.ty {
        Dimensions::Texture1dArray { .. } => {},
        Dimensions::Texture3d { .. } => {
            assert(spec_slice_count(view.texture.ty, view.level) >= 1) by {
                crate::dimensions::lemma_chain_levels_bound(0);
            };
        },
        _ => {},
    }
}

/// The grid an upload writes into has the extents the blit needs.
proof fn lemma_upload_grid_dims(
    view: TextureAnyMipmap<'_>,
    ctxt: DeviceContext,
    dw: u32,
    dh: u32,
    h1: u32,
    width: u32,
    y_offset: u32,
)
    requires
        view.spec_wf(),
        view.texture.spec_valid(ctxt),
        (view.level as int) < ctxt.spec_storage(view.texture.id).levels@.len(),
        view.texture.ty matches Dimensions::Texture2d { .. } || view.texture.ty
            matches Dimensions::Texture1dArray { .. },
        dw == view.width,
        dh == (match view.texture.ty {
            Dimensions::Texture1dArray { array_size, .. } => array_size,
            _ => spec_view_axis_or_one(view.height),
        }),
    ensures
        ({
            let ls = ctxt.spec_storage(view.texture.id).levels@[view.level as int];
            &&& ls.layers@.len() >= 1
            &&& grid_wf(grid_view(ls.layers@[0]), dw as nat, dh as nat)
            &&& spec_view_axis_or_one(view.height) <= dh
        }),
{
    let ls = ctxt.spec_storage(view.texture.id).levels@[view.level as int];
    assert(spec_level_wf(ls, view.texture.ty, view.level));
}

/// The ordered teardown of a texture: detach its name from every
/// framebuffer attachment, clear it from every texture-unit shadow slot,
/// then release the driver name — in that order, whatever else the context
/// holds.
impl TextureAny {
    /// Destroys the texture: after the call no framebuffer attachment
    /// references its name, no texture unit holds it, and the name is no
    /// longer live. Every other texture keeps its storage.
    pub fn destroy(self, ctxt: &mut DeviceContext)
        requires
            old(ctxt).spec_live(self.id),
        ensures
            !final(ctxt).spec_live(self.id),
            final(ctxt).textures@.len() == old(ctxt).textures@.len(),
            forall|n: u32|
                n != self.id && old(ctxt).spec_live(n) ==> final(ctxt).spec_live(n)
                    && final(ctxt).spec_storage(n) == old(ctxt).spec_storage(n),
            final(ctxt).attachments@ == old(ctxt).attachments@.filter(
                |a: crate::context::Attachment| a.texture != self.id,
            ),
            final(ctxt).texture_units@.len() == old(ctxt).texture_units@.len(),
            forall|u: int|
                0 <= u < old(ctxt).texture_units@.len() ==> final(ctxt).texture_units@[u] == (
                if old(ctxt).texture_units@[u] == self.id {
                    0u32
                } else {
                    old(ctxt).texture_units@[u]
                }),
            final(ctxt).version == old(ctxt).version,
            final(ctxt).extensions == old(ctxt).extensions,
            final(ctxt).active_texture == old(ctxt).active_texture,
            final(ctxt).pixel_store_unpack_alignment == old(ctxt).pixel_store_unpack_alignment,
            final(ctxt).pixel_store_pack_alignment == old(ctxt).pixel_store_pack_alignment,
            final(ctxt).bind_calls == old(ctxt).bind_calls,
            final(ctxt).format_queries == old(ctxt).format_queries,
            final(ctxt).mipmap_generations == old(ctxt).mipmap_generations,
    {
        ctxt.purge_texture(self.id);
        ctxt.clear_unit_bindings(self.id);
        ctxt.delete_texture(self.id);
    }
}

/// The driver-to-client row alignment chosen before a compressed read into
/// a host buffer at address `addr`: kept where the buffer is eight-aligned,
/// else stepped down to the largest of four, two, one that the chain of
/// checks settles on.
pub open spec fn spec_select_pack_alignment(addr: usize, current: u32) -> u32 {
    if addr % 8 == 0 {
        current
    } else if addr % 4 == 0 && current != 4 {
        4u32
    } else if addr % 2 == 0 && current > 2 {
        2u32
    } else if current != 1 {
        1u32
    } else {
        current
    }
}

/// Chooses the driver-to-client row alignment for a compressed read into a
/// host buffer at address `addr`. The chosen alignment always divides the
/// address or the address is eight-aligned, so the transfer never
/// misaligns rows.
pub fn select_pack_alignment(addr: usize, current: u32) -> (r: u32)
    requires
        current == 1 || current == 2 || current == 4 || current == 8,
    ensures
        r == spec_select_pack_alignment(addr, current),
        r == 1 || r == 2 || r == 4 || r == 8,
        addr as int % (r as int) == 0,
{
    if addr % 8 == 0 {
        proof {
            lemma_aligned_divides(addr, current);
        }
        current
    } else if addr % 4 == 0 && current != 4 {
        4
    } else if addr % 2 == 0 && current > 2 {
        2
    } else if current != 1 {
        proof {
            assert(addr as int % 1int == 0);
        }
        1
    } else {
        current
    }
}

/// Every power-of-two alignment up to eight divides an eight-aligned
/// address.
proof fn lemma_aligned_divides(addr: usize, current: u32)
    requires
        addr % 8 == 0,
        current == 1 || current == 2 || current == 4 || current == 8,
    ensures
        addr as int % (current as int) == 0,
{
    let a = addr as int;
    assert(a % 8 == 0 ==> a % 4 == 0 && a % 2 == 0 && a % 1 == 0) by (nonlinear_arith);
}

/// The pixel round trip: four-byte-per-pixel client data decoded into a
/// texel grid, as a creation or a full-rectangle upload stores it, and
/// encoded back to bytes, as a read returns it, is the data unchanged —
/// the driver converts nothing for this format.
pub proof fn lemma_rgba8_upload_read_roundtrip(data: Seq<u8>, w: u32, h: u32)
    requires
        data.len() == ClientFormat::U8U8U8U8.spec_buffer_size(w, Some(h), None, None),
    ensures
        crate::pixels::spec_encode(
            spec_decode(ClientFormat::U8U8U8U8, data, 0, w as nat, h as nat),
            w as nat,
        ) == data,
{
    assert(ClientFormat::U8U8U8U8.spec_buffer_size(w, Some(h), None, None) == 4 * (w as nat) * (
    h as nat));
    crate::pixels::lemma_rgba8_roundtrip(data, w as nat, h as nat);
}

/// Power-of-two extents are never refused: where every present extent is a
/// power of two or zero, or the driver reports non-power-of-two support
/// (by version or extension), creation never returns the extent refusal.
pub proof fn lemma_pot_dimensions_supported(
    v: Version,
    e: Extensions,
    client: Option<ClientFormat>,
    format: TextureFormatRequest,
    ty: Dimensions,
)
    requires
        (spec_legacy_extent_ok(ty.spec_width()) && spec_legacy_axis_ok(ty.spec_height())
            && spec_legacy_axis_ok(ty.spec_depth()) && spec_legacy_axis_ok(ty.spec_array_size()))
            || e.arb_texture_non_power_of_two || !(v.api == Api::Gl && v.major < 2),
    ensures
        spec_creation_error(v, e, client, format, ty) != Some(
            TextureCreationError::DimensionsNotSupported,
        ),
{
}

/// A caller bug in a creation request: the core creation function treats
/// these as preconditions; the checked front door reports them instead of
/// proceeding, before any driver handle is allocated.
#[derive(Copy, Clone, Debug, PartialEq, Eq, Structural)]
pub enum CreationViolation {
    /// The initial data's byte length is not the exact buffer size.
    DataSizeMismatch,
    /// A multisample shape class never accepts initial data.
    MultisampleWithData,
    /// A fixed mipmap count must lie between one and the chain bound.
    InvalidLevelCount,
    /// The driver lacks the multisample allocation or mipmap-generation
    /// entry point this request would need.
    MissingDriverSupport,
    /// The model's name space or a call counter is exhausted.
    ResourceLimit,
}

/// The first violation a creation request contains, in the order the
/// checks run, or `None` where it is a valid request.
pub open spec fn spec_creation_violation(
    c: DeviceContext,
    format: TextureFormatRequest,
    data: Option<(ClientFormat, Vec<u8>)>,
    mipmaps: MipmapsOption,
    ty: Dimensions,
) -> Option<CreationViolation> {
    if data matches Some((cf, d)) && d@.len() != cf.spec_buffer_size(
        ty.spec_width(),
        ty.spec_height(),
        ty.spec_depth(),
        ty.spec_array_size(),
    ) {
        Some(CreationViolation::DataSizeMismatch)
    } else if ty.spec_is_multisample() && data is Some {
        Some(CreationViolation::MultisampleWithData)
    } else if mipmaps matches MipmapsOption::EmptyMipmaps(n) && !(1 <= n <= 32) {
        Some(CreationViolation::InvalidLevelCount)
    } else if ty.spec_is_multisample() && !spec_ms_alloc_ok(
        c.version,
        c.extensions,
        spec_client_of(data),
        format,
    ) {
        Some(CreationViolation::MissingDriverSupport)
    } else if spec_generate_at_creation(format, mipmaps) && !spec_generation_available(
        c.version,
        c.extensions,
    ) {
        Some(CreationViolation::MissingDriverSupport)
    } else if c.textures@.len() >= u32::MAX || c.bind_calls >= u64::MAX
        || c.mipmap_generations >= u64::MAX {
        Some(CreationViolation::ResourceLimit)
    } else {
        None
    }
}

/// Builds a new texture after validating the request: a caller bug is
/// reported as the violation it is, before any driver handle is allocated;
/// a valid request proceeds exactly as [`new_texture`].
pub fn try_new_texture(
    ctxt: &mut DeviceContext,
    format: TextureFormatRequest,
    data: Option<(ClientFormat, Vec<u8>)>,
    mipmaps: MipmapsOption,
    ty: Dimensions,
) -> (r: Result<Result<TextureAny, TextureCreationError>, CreationViolation>)
    requires
        old(ctxt).spec_wf(),
    ensures
        r is Err <==> spec_creation_violation(*old(ctxt), format, data, mipmaps, ty) is Some,
        r matches Err(v) ==> Some(v) == spec_creation_violation(
            *old(ctxt),
            format,
            data,
            mipmaps,
            ty,
        ) && *final(ctxt) == *old(ctxt),
        r matches Ok(inner) ==> ({
            &&& (inner is Err <==> spec_creation_error(
                old(ctxt).version,
                old(ctxt).extensions,
                spec_client_of(data),
                format,
                ty,
            ) is Some)
            &&& (inner matches Err(e) ==> Some(e) == spec_creation_error(
                old(ctxt).version,
                old(ctxt).extensions,
                spec_client_of(data),
                format,
                ty,
            ) && *final(ctxt) == *old(ctxt))
            &&& (inner matches Ok(t) ==> spec_creation_effect(
                t,
                *old(ctxt),
                *final(ctxt),
                format,
                data,
                mipmaps,
                ty,
            ))
        }),
{
    match &data {
        Some((cf, d)) => {
            let dlen: usize = d.len();
            let size_ok = match cf.checked_buffer_size(
                ty.width(),
                ty.height(),
                ty.depth(),
                ty.array_size(),
            ) {
                Some(n) => (dlen as u64) == n,
                None => false,
            };
            if !size_ok {
                proof {
                    // A length always fits in 64 bits, so an oversized
                    // expected buffer can never match it.
                    assert(dlen == d@.len() && d@.len() <= usize::MAX <= u64::MAX);
                }
                return Err(CreationViolation::DataSizeMismatch);
            }
        },
        None => (),
    }
    let is_ms = match ty.samples() {
        Some(_) => true,
        None => false,
    };
    if is_ms && matches!(&data, Some(_)) {
        return Err(CreationViolation::MultisampleWithData);
    }
    match mipmaps {
        MipmapsOption::EmptyMipmaps(n) => if !(1 <= n && n <= 32) {
            return Err(CreationViolation::InvalidLevelCount);
        },
        _ => (),
    }
    if is_ms {
        let client_fmt = match &data {
            Some((cf, _)) => Some(*cf),
            None => None,
        };
        let storage_ok = if ctxt.version.is_at_least(Api::Gl, 4, 2)
            || ctxt.extensions.arb_texture_storage {
            match format_request_to_glenum(&ctxt.version, &ctxt.extensions, client_fmt, format) {
                Ok((_, Some(_))) => true,
                _ => false,
            }
        } else {
            false
        };
        if !(ctxt.version.is_at_least(Api::Gl, 3, 2) || ctxt.extensions.arb_texture_multisample
            || storage_ok) {
            return Err(CreationViolation::MissingDriverSupport);
        }
    }
    if mipmaps.should_generate() && !format.is_depth_class() {
        if !(ctxt.version.is_at_least(Api::Gl, 3, 0) || ctxt.version.is_at_least(Api::GlEs, 2, 0)
            || ctxt.extensions.ext_framebuffer_object) {
            return Err(CreationViolation::MissingDriverSupport);
        }
    }
    if ctxt.textures.len() >= (u32::MAX as usize) || ctxt.bind_calls >= u64::MAX
        || ctxt.mipmap_generations >= u64::MAX {
        return Err(CreationViolation::ResourceLimit);
    }
    Ok(new_texture(ctxt, format, data, mipmaps, ty))
}

/// A caller bug in an upload request: the core upload treats these as
/// preconditions; the checked front door reports them instead of
/// proceeding, leaving the context untouched.
#[derive(Copy, Clone, Debug, PartialEq, Eq, Structural)]
pub enum UploadViolation {
    /// Mipmap regeneration was requested on a level other than the base.
    RegenerateOutsideBaseLevel,
    /// The offsets and extents leave the view's rectangle.
    RegionOutOfBounds,
    /// The data's byte length is not the exact buffer size.
    DataSizeMismatch,
    /// Sub-region upload is not supported for this shape class.
    UnsupportedShape,
    /// The addressed level was never allocated.
    LevelNotAllocated,
    /// A call counter of the model is exhausted.
    ResourceLimit,
}

/// The first violation an upload request contains, in the order the
/// checks run, or `None` where it is a valid request.
pub open spec fn spec_upload_violation(
    view: TextureAnyMipmap<'_>,
    c: DeviceContext,
    x_offset: u32,
    y_offset: u32,
    z_offset: u32,
    format: ClientFormat,
    data: Seq<u8>,
    width: u32,
    height: Option<u32>,
    depth: Option<u32>,
    regen_mipmaps: bool,
) -> Option<UploadViolation> {
    if regen_mipmaps && view.level != 0 {
        Some(UploadViolation::RegenerateOutsideBaseLevel)
    } else if x_offset + width > view.width || y_offset + spec_view_axis_or_one(height)
        > spec_view_axis_or_one(view.height) || z_offset + spec_view_axis_or_one(depth)
        > spec_view_axis_or_one(view.depth) || spec_view_axis_or_one(depth) != 1 {
        Some(UploadViolation::RegionOutOfBounds)
    } else if data.len() != format.spec_buffer_size(width, height, depth, None) {
        Some(UploadViolation::DataSizeMismatch)
    } else if !(view.texture.ty matches Dimensions::Texture2d { .. } || view.texture.ty
        matches Dimensions::Texture1dArray { .. }) {
        Some(UploadViolation::UnsupportedShape)
    } else if view.level >= c.spec_storage(view.texture.id).levels@.len() {
        Some(UploadViolation::LevelNotAllocated)
    } else if c.bind_calls >= u64::MAX || c.mipmap_generations >= u64::MAX {
        Some(UploadViolation::ResourceLimit)
    } else {
        None
    }
}

impl<'a> TextureAnyMipmap<'a> {
    /// Uploads client data into a sub-region of this view after validating
    /// the request: a caller bug is reported as the violation it is with
    /// nothing changed; a valid request proceeds exactly as
    /// [`Self::upload_texture`], whose `Err` means the client format
    /// negotiation failed.
    pub fn try_upload_texture(
        &self,
        ctxt: &mut DeviceContext,
        x_offset: u32,
        y_offset: u32,
        z_offset: u32,
        format: ClientFormat,
        data: &Vec<u8>,
        width: u32,
        height: Option<u32>,
        depth: Option<u32>,
        regen_mipmaps: bool,
    ) -> (r: Result<Result<(), ()>, UploadViolation>)
        requires
            self.spec_wf(),
            self.texture.spec_valid(*old(ctxt)),
            old(ctxt).spec_wf(),
        ensures
            r is Err <==> spec_upload_violation(
                *self,
                *old(ctxt),
                x_offset,
                y_offset,
                z_offset,
                format,
                data@,
                width,
                height,
                depth,
                regen_mipmaps,
            ) is Some,
            r matches Err(v) ==> Some(v) == spec_upload_violation(
                *self,
                *old(ctxt),
                x_offset,
                y_offset,
                z_offset,
                format,
                data@,
                width,
                height,
                depth,
                regen_mipmaps,
            ) && *final(ctxt) == *old(ctxt),
            r matches Ok(inner) ==> ({
                &&& (inner is Err <==> spec_client_format_result(
                    old(ctxt).version,
                    old(ctxt).extensions,
                    format,
                    self.texture.requested_format,
                ) is Err)
                &&& (inner is Err ==> *final(ctxt) == *old(ctxt))
                &&& (inner is Ok ==> spec_upload_effect(
                    *self,
                    *old(ctxt),
                    *final(ctxt),
                    x_offset,
                    y_offset,
                    format,
                    data@,
                    width,
                    height,
                    regen_mipmaps,
                ))
            }),
    {
        let texture = self.texture;
        if regen_mipmaps && self.level != 0 {
            return Err(UploadViolation::RegenerateOutsideBaseLevel);
        }
        let h1: u64 = match height {
            Some(h) => h as u64,
            None => 1,
        };
        let d1: u64 = match depth {
            Some(d) => d as u64,
            None => 1,
        };
        let vh1: u64 = match self.height {
            Some(h) => h as u64,
            None => 1,
        };
        let vd1: u64 = match self.depth {
            Some(d) => d as u64,
            None => 1,
        };
        if (x_offset as u64) + (width as u64) > (self.width as u64) || (y_offset as u64) + h1
            > vh1 || (z_offset as u64) + d1 > vd1 || d1 != 1 {
            return Err(UploadViolation::RegionOutOfBounds);
        }
        let dlen: usize = data.len();
        let size_ok = match format.checked_buffer_size(width, height, depth, None) {
            Some(n) => (dlen as u64) == n,
            None => false,
        };
        if !size_ok {
            proof {
                assert(dlen == data@.len());
            }
            return Err(UploadViolation::DataSizeMismatch);
        }
        let supported = match texture.ty {
            Dimensions::Texture2d { .. } => true,
            Dimensions::Texture1dArray { .. } => true,
            _ => false,
        };
        if !supported {
            return Err(UploadViolation::UnsupportedShape);
        }
        let allocated = (self.level as usize) < ctxt_level_count(ctxt, texture.id);
        if !allocated {
            return Err(UploadViolation::LevelNotAllocated);
        }
        if ctxt.bind_calls >= u64::MAX || ctxt.mipmap_generations >= u64::MAX {
            return Err(UploadViolation::ResourceLimit);
        }
        Ok(
            self.upload_texture(
                ctxt,
                x_offset,
                y_offset,
                z_offset,
                format,
                data,
                width,
                height,
                depth,
                regen_mipmaps,
            ),
        )
    }
}

/// How many levels a live texture has allocated.
fn ctxt_level_count(ctxt: &DeviceContext, id: u32) -> (r: usize)
    requires
        ctxt.spec_live(id),
    ensures
        r == ctxt.spec_storage(id).levels@.len(),
{
    let idx: usize = (id - 1) as usize;
    match &ctxt.textures[idx] {
        Some(st) => st.levels.len(),
        None => vstd::pervasive::unreached(),
    }
}

/// The format cache memoizes: after one `get_internal_format` call, a
/// second call returns a bit-identical outcome, leaves the texture and the
/// query counter unchanged, and the two calls together issue at most one
/// driver query.
pub proof fn lemma_internal_format_memoized(t: TextureAny, c: DeviceContext)
    requires
        c.format_queries < u64::MAX,
    ensures
        ({
            let r1 = TextureAny::spec_format_result(t, c);
            let t1 = TextureAny { actual_format: Some(r1), ..t };
            TextureAny::spec_format_result(t1, c) == r1
                && TextureAny::spec_queries_after(t1, c) == c.format_queries
                && TextureAny::spec_queries_after(t, c) <= c.format_queries + 1
        }),
{
}

} // verus!
