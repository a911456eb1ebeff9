//! The device command context: driver version, capability flags and the
//! shadowed driver state every texture operation reads and updates.

use vstd::prelude::*;

use crate::image_format::ClientFormat;
use crate::pixels::{blit, decode_grid, grid_view, grid_wf, spec_blit, spec_decode, Grid};

verus! {

/// The flavour of driver interface a context was created with.
#[derive(Copy, Clone, Debug, PartialEq, Eq, Structural)]
pub enum Api {
    Gl,
    GlEs,
}

/// A driver interface version.
#[derive(Copy, Clone, Debug, PartialEq, Eq, Structural)]
pub struct Version {
    pub api: Api,
    pub major: u32,
    pub minor: u32,
}

/// Whether version `v` is at least `major.minor` of the given interface
/// flavour. Versions of different flavours are never comparable.
pub open spec fn spec_at_least(v: Version, api: Api, major: u32, minor: u32) -> bool {
    v.api == api && (v.major > major || (v.major == major && v.minor >= minor))
}

impl Version {
    /// Whether this version is at least `major.minor` of the given flavour.
    pub fn is_at_least(&self, api: Api, major: u32, minor: u32) -> (r: bool)
        ensures
            r == spec_at_least(*self, api, major, minor),
    {
        self.api == api && (self.major > major || (self.major == major && self.minor >= minor))
    }
}

/// The driver extensions this model consults.
#[derive(Copy, Clone, Debug, PartialEq, Eq, Structural)]
pub struct Extensions {
    /// Non-power-of-two extents accepted before version 2.0.
    pub arb_texture_non_power_of_two: bool,
    /// Immutable storage allocation available below version 4.2.
    pub arb_texture_storage: bool,
    /// Multisample allocation entry points below version 3.2.
    pub arb_texture_multisample: bool,
    /// Mipmap generation entry point on legacy drivers.
    pub ext_framebuffer_object: bool,
    /// Block-compressed texture formats.
    pub ext_texture_compression_s3tc: bool,
    /// Combined depth and stencil storage below version 3.0.
    pub ext_packed_depth_stencil: bool,
}

/// Driver-side storage of one mipmap level: one texel grid per slice (array
/// layer or depth slice), and the compressed byte blob where the texture's
/// storage format is block-compressed.
pub struct LevelStorage {
    pub layers: Vec<Grid>,
    pub compressed: Option<Vec<u8>>,
}

/// Driver-side state of one texture name.
pub struct TextureStorage {
    /// The storage format code the allocation used.
    pub internal_code: u32,
    /// Whether that code names a block-compressed format.
    pub compressed_storage: bool,
    /// Whether the allocation was immutable storage rather than a legacy
    /// image allocation.
    pub immutable: bool,
    /// The allocated levels, base level first. A legacy allocation without
    /// generated mipmaps holds the base level only.
    pub levels: Vec<LevelStorage>,
}

/// One framebuffer attachment the registry remembers: a texture name with
/// the staged layer and level.
#[derive(Copy, Clone, Debug, PartialEq, Eq, Structural)]
pub struct Attachment {
    pub texture: u32,
    pub layer: u32,
    pub level: u32,
}

/// The explicit device command context: driver version and capabilities,
/// the shadowed binding and pixel-store state, the driver-side texture
/// storage, the framebuffer attachment registry, and counters of the driver
/// round-trips the shadow state exists to keep rare.
pub struct DeviceContext {
    pub version: Version,
    pub extensions: Extensions,
    /// Index of the active texture unit.
    pub active_texture: usize,
    /// Shadow of the texture name bound to each unit; zero means none.
    pub texture_units: Vec<u32>,
    /// Shadow of the client-to-driver transfer row alignment.
    pub pixel_store_unpack_alignment: u32,
    /// Shadow of the driver-to-client transfer row alignment.
    pub pixel_store_pack_alignment: u32,
    /// Driver-side texture storage; name `n` lives at index `n - 1`.
    pub textures: Vec<Option<TextureStorage>>,
    /// The framebuffer attachment registry.
    pub attachments: Vec<Attachment>,
    /// How many bind calls reached the driver.
    pub bind_calls: u64,
    /// How many storage-format queries reached the driver.
    pub format_queries: u64,
    /// How many mipmap-generation calls reached the driver.
    pub mipmap_generations: u64,
}

/// A byte-for-byte copy of a vector.
pub fn copy_bytes(src: &Vec<u8>) -> (r: Vec<u8>)
    ensures
        r@ == src@,
{
    let n: usize = src.len();
    let mut out: Vec<u8> = Vec::new();
    let mut k: usize = 0;
    while k < n
        invariant
            n == src@.len(),
            k <= n,
            out@ == src@.subrange(0, k as int),
        decreases n - k,
    {
        out.push(src[k]);
        proof {
            assert(out@ =~= src@.subrange(0, k + 1));
        }
        k = k + 1;
    }
    proof {
        assert(src@.subrange(0, n as int) =~= src@);
    }
    out
}

impl DeviceContext {
    /// The context has at least one texture unit and a valid active unit.
    pub open spec fn spec_wf(self) -> bool {
        self.texture_units@.len() >= 1 && self.active_texture < self.texture_units@.len()
    }

    /// Whether texture name `id` is allocated and not yet deleted.
    pub open spec fn spec_live(self, id: u32) -> bool {
        1 <= id <= self.textures@.len() && self.textures@[id - 1] is Some
    }

    /// The storage behind a live texture name.
    pub open spec fn spec_storage(self, id: u32) -> TextureStorage
        recommends
            self.spec_live(id),
    {
        self.textures@[id - 1]->Some_0
    }

    /// A fresh context for a driver of the given version and extensions,
    /// with `units` texture units, nothing bound, nothing allocated, and
    /// default transfer alignments.
    pub fn new(version: Version, extensions: Extensions, units: usize) -> (r: DeviceContext)
        requires
            units >= 1,
        ensures
            r.spec_wf(),
            r.version == version,
            r.extensions == extensions,
            r.active_texture == 0,
            r.texture_units@.len() == units,
            forall|u: int| 0 <= u < units ==> r.texture_units@[u] == 0,
            r.pixel_store_unpack_alignment == 4,
            r.pixel_store_pack_alignment == 4,
            r.textures@.len() == 0,
            r.attachments@.len() == 0,
            r.bind_calls == 0,
            r.format_queries == 0,
            r.mipmap_generations == 0,
    {
        let mut texture_units: Vec<u32> = Vec::new();
        let mut u: usize = 0;
        while u < units
            invariant
                u <= units,
                texture_units@.len() == u,
                forall|k: int| 0 <= k < u ==> texture_units@[k] == 0,
            decreases units - u,
        {
            texture_units.push(0);
            u = u + 1;
        }
        DeviceContext {
            version,
            extensions,
            active_texture: 0,
            texture_units,
            pixel_store_unpack_alignment: 4,
            pixel_store_pack_alignment: 4,
            textures: Vec::new(),
            attachments: Vec::new(),
            bind_calls: 0,
            format_queries: 0,
            mipmap_generations: 0,
        }
    }

    /// Allocates a fresh texture name for the given storage and returns it.
    /// Relies on nothing outside the model: names are handed out in order.
    pub fn alloc_texture(&mut self, storage: TextureStorage) -> (id: u32)
        requires
            old(self).textures@.len() < u32::MAX,
        ensures
            id == old(self).textures@.len() + 1,
            final(self).textures@ == old(self).textures@.push(Some(storage)),
            final(self).spec_live(id),
            final(self).spec_storage(id) == storage,
            forall|n: u32| old(self).spec_live(n) ==> final(self).spec_live(n)
                && final(self).spec_storage(n) == old(self).spec_storage(n),
            final(self).version == old(self).version,
            final(self).extensions == old(self).extensions,
            final(self).active_texture == old(self).active_texture,
            final(self).texture_units == old(self).texture_units,
            final(self).pixel_store_unpack_alignment == old(self).pixel_store_unpack_alignment,
            final(self).pixel_store_pack_alignment == old(self).pixel_store_pack_alignment,
            final(self).attachments == old(self).attachments,
            final(self).bind_calls == old(self).bind_calls,
            final(self).format_queries == old(self).format_queries,
            final(self).mipmap_generations == old(self).mipmap_generations,
    {
        let id: u32 = (self.textures.len() as u32) + 1;
        self.textures.push(Some(storage));
        id
    }

    /// Deletes a texture name: its storage is gone, every other name keeps
    /// its storage, and nothing else of the context changes.
    pub fn delete_texture(&mut self, id: u32)
        requires
            old(self).spec_live(id),
        ensures
            !final(self).spec_live(id),
            final(self).textures@.len() == old(self).textures@.len(),
            forall|n: u32| n != id && old(self).spec_live(n) ==> final(self).spec_live(n)
                && final(self).spec_storage(n) == old(self).spec_storage(n),
            final(self).version == old(self).version,
            final(self).extensions == old(self).extensions,
            final(self).active_texture == old(self).active_texture,
            final(self).texture_units == old(self).texture_units,
            final(self).pixel_store_unpack_alignment == old(self).pixel_store_unpack_alignment,
            final(self).pixel_store_pack_alignment == old(self).pixel_store_pack_alignment,
            final(self).attachments == old(self).attachments,
            final(self).bind_calls == old(self).bind_calls,
            final(self).format_queries == old(self).format_queries,
            final(self).mipmap_generations == old(self).mipmap_generations,
    {
        let idx: usize = (id - 1) as usize;
        self.textures[idx] = None;
    }

    /// Binds texture `id` on the active unit, consulting the shadow first:
    /// a driver bind call is issued (and counted) only when the unit does
    /// not already hold `id`.
    pub fn bind_texture(&mut self, id: u32)
        requires
            old(self).spec_wf(),
            old(self).bind_calls < u64::MAX,
        ensures
            final(self).spec_wf(),
            final(self).texture_units@ == old(self).texture_units@.update(
                old(self).active_texture as int,
                id,
            ),
            old(self).texture_units@[old(self).active_texture as int] == id
                ==> final(self).bind_calls == old(self).bind_calls,
            old(self).texture_units@[old(self).active_texture as int] != id
                ==> final(self).bind_calls == old(self).bind_calls + 1,
            final(self).version == old(self).version,
            final(self).extensions == old(self).extensions,
            final(self).active_texture == old(self).active_texture,
            final(self).pixel_store_unpack_alignment == old(self).pixel_store_unpack_alignment,
            final(self).pixel_store_pack_alignment == old(self).pixel_store_pack_alignment,
            final(self).textures == old(self).textures,
            final(self).attachments == old(self).attachments,
            final(self).format_queries == old(self).format_queries,
            final(self).mipmap_generations == old(self).mipmap_generations,
    {
        let unit: usize = self.active_texture;
        if self.texture_units[unit] != id {
            self.texture_units[unit] = id;
            self.bind_calls = self.bind_calls + 1;
        } else {
            proof {
                assert(self.texture_units@ =~= self.texture_units@.update(unit as int, id));
            }
        }
    }

    /// Sets the client-to-driver transfer alignment shadow.
    pub fn set_unpack_alignment(&mut self, alignment: u32)
        ensures
            final(self).pixel_store_unpack_alignment == alignment,
            final(self).version == old(self).version,
            final(self).extensions == old(self).extensions,
            final(self).active_texture == old(self).active_texture,
            final(self).texture_units == old(self).texture_units,
            final(self).pixel_store_pack_alignment == old(self).pixel_store_pack_alignment,
            final(self).textures == old(self).textures,
            final(self).attachments == old(self).attachments,
            final(self).bind_calls == old(self).bind_calls,
            final(self).format_queries == old(self).format_queries,
            final(self).mipmap_generations == old(self).mipmap_generations,
    {
        if self.pixel_store_unpack_alignment != alignment {
            self.pixel_store_unpack_alignment = alignment;
        }
    }

    /// Sets the driver-to-client transfer alignment shadow.
    pub fn set_pack_alignment(&mut self, alignment: u32)
        ensures
            final(self).pixel_store_pack_alignment == alignment,
            final(self).version == old(self).version,
            final(self).extensions == old(self).extensions,
            final(self).active_texture == old(self).active_texture,
            final(self).texture_units == old(self).texture_units,
            final(self).pixel_store_unpack_alignment == old(self).pixel_store_unpack_alignment,
            final(self).textures == old(self).textures,
            final(self).attachments == old(self).attachments,
            final(self).bind_calls == old(self).bind_calls,
            final(self).format_queries == old(self).format_queries,
            final(self).mipmap_generations == old(self).mipmap_generations,
    {
        if self.pixel_store_pack_alignment != alignment {
            self.pixel_store_pack_alignment = alignment;
        }
    }

    /// Whether the registry holds the given attachment.
    pub fn has_attachment(&self, att: Attachment) -> (r: bool)
        ensures
            r == self.attachments@.contains(att),
    {
        let mut k: usize = 0;
        let n: usize = self.attachments.len();
        while k < n
            invariant
                n == self.attachments@.len(),
                k <= n,
                forall|p: int| 0 <= p < k ==> self.attachments@[p] != att,
            decreases n - k,
        {
            let a = self.attachments[k];
            if a.texture == att.texture && a.layer == att.layer && a.level == att.level {
                assert(self.attachments@[k as int] == att);
                return true;
            }
            k = k + 1;
        }
        false
    }

    /// Stages a mipmap slice as a framebuffer attachment for a pixel
    /// transfer; the registry caches it, so staging twice keeps one entry.
    pub fn stage_attachment(&mut self, att: Attachment)
        ensures
            final(self).attachments@ == if old(self).attachments@.contains(att) {
                old(self).attachments@
            } else {
                old(self).attachments@.push(att)
            },
            final(self).attachments@.contains(att),
            final(self).version == old(self).version,
            final(self).extensions == old(self).extensions,
            final(self).active_texture == old(self).active_texture,
            final(self).texture_units == old(self).texture_units,
            final(self).pixel_store_unpack_alignment == old(self).pixel_store_unpack_alignment,
            final(self).pixel_store_pack_alignment == old(self).pixel_store_pack_alignment,
            final(self).textures == old(self).textures,
            final(self).bind_calls == old(self).bind_calls,
            final(self).format_queries == old(self).format_queries,
            final(self).mipmap_generations == old(self).mipmap_generations,
    {
        if !self.has_attachment(att) {
            self.attachments.push(att);
            proof {
                assert(self.attachments@[self.attachments@.len() - 1] == att);
            }
        }
    }

    /// Detaches texture `id` from every framebuffer attachment that
    /// references it, keeping all other attachments in order.
    pub fn purge_texture(&mut self, id: u32)
        ensures
            final(self).attachments@ == old(self).attachments@.filter(
                |a: Attachment| a.texture != id,
            ),
            final(self).version == old(self).version,
            final(self).extensions == old(self).extensions,
            final(self).active_texture == old(self).active_texture,
            final(self).texture_units == old(self).texture_units,
            final(self).pixel_store_unpack_alignment == old(self).pixel_store_unpack_alignment,
            final(self).pixel_store_pack_alignment == old(self).pixel_store_pack_alignment,
            final(self).textures == old(self).textures,
            final(self).bind_calls == old(self).bind_calls,
            final(self).format_queries == old(self).format_queries,
            final(self).mipmap_generations == old(self).mipmap_generations,
    {
        let ghost pred = |a: Attachment| a.texture != id;
        let n: usize = self.attachments.len();
        let mut kept: Vec<Attachment> = Vec::new();
        let mut k: usize = 0;
        while k < n
            invariant
                n == self.attachments@.len(),
                k <= n,
                kept@ == self.attachments@.subrange(0, k as int).filter(pred),
                pred == (|a: Attachment| a.texture != id),
            decreases n - k,
        {
            let a = self.attachments[k];
            proof {
                let t = self.attachments@.subrange(0, k + 1);
                assert(t.drop_last() =~= self.attachments@.subrange(0, k as int));
                assert(t.last() == a);
                reveal_with_fuel(Seq::<_>::filter, 2);
            }
            if a.texture != id {
                kept.push(a);
            }
            k = k + 1;
        }
        proof {
            assert(self.attachments@.subrange(0, n as int) =~= self.attachments@);
        }
        self.attachments = kept;
    }

    /// Queries the driver for the storage format code of a live texture,
    /// counting the round-trip.
    pub fn query_internal_format(&mut self, id: u32) -> (code: u32)
        requires
            old(self).spec_live(id),
            old(self).format_queries < u64::MAX,
        ensures
            code == old(self).spec_storage(id).internal_code,
            final(self).format_queries == old(self).format_queries + 1,
            final(self).version == old(self).version,
            final(self).extensions == old(self).extensions,
            final(self).active_texture == old(self).active_texture,
            final(self).texture_units == old(self).texture_units,
            final(self).pixel_store_unpack_alignment == old(self).pixel_store_unpack_alignment,
            final(self).pixel_store_pack_alignment == old(self).pixel_store_pack_alignment,
            final(self).textures == old(self).textures,
            final(self).attachments == old(self).attachments,
            final(self).bind_calls == old(self).bind_calls,
            final(self).mipmap_generations == old(self).mipmap_generations,
    {
        self.format_queries = self.format_queries + 1;
        let idx: usize = (id - 1) as usize;
        match &self.textures[idx] {
            Some(st) => st.internal_code,
            None => vstd::pervasive::unreached(),
        }
    }

    /// Asks the driver to regenerate the mipmap chain of the bound texture;
    /// the model records the round-trip. Generated level contents are
    /// driver-defined and not tracked by the model.
    pub fn generate_mipmap(&mut self)
        requires
            old(self).mipmap_generations < u64::MAX,
        ensures
            final(self).mipmap_generations == old(self).mipmap_generations + 1,
            final(self).version == old(self).version,
            final(self).extensions == old(self).extensions,
            final(self).active_texture == old(self).active_texture,
            final(self).texture_units == old(self).texture_units,
            final(self).pixel_store_unpack_alignment == old(self).pixel_store_unpack_alignment,
            final(self).pixel_store_pack_alignment == old(self).pixel_store_pack_alignment,
            final(self).textures == old(self).textures,
            final(self).attachments == old(self).attachments,
            final(self).bind_calls == old(self).bind_calls,
            final(self).format_queries == old(self).format_queries,
    {
        self.mipmap_generations = self.mipmap_generations + 1;
    }

    /// Whether a live texture's storage format is block-compressed, and the
    /// storage format code, as level-parameter queries would report them.
    pub fn level_compressed_info(&self, id: u32) -> (r: (bool, u32))
        requires
            self.spec_live(id),
        ensures
            r.0 == self.spec_storage(id).compressed_storage,
            r.1 == self.spec_storage(id).internal_code,
    {
        let idx: usize = (id - 1) as usize;
        match &self.textures[idx] {
            Some(st) => (st.compressed_storage, st.internal_code),
            None => vstd::pervasive::unreached(),
        }
    }

    /// Borrows the texel grid of one slice of one allocated level.
    pub fn level_grid(&self, id: u32, level: usize, slice: usize) -> (r: &Grid)
        requires
            self.spec_live(id),
            level < self.spec_storage(id).levels@.len(),
            slice < self.spec_storage(id).levels@[level as int].layers@.len(),
        ensures
            *r == self.spec_storage(id).levels@[level as int].layers@[slice as int],
    {
        let idx: usize = (id - 1) as usize;
        match &self.textures[idx] {
            Some(st) => &st.levels[level].layers[slice],
            None => vstd::pervasive::unreached(),
        }
    }

    /// The compressed byte blob of one allocated level: what the last
    /// compressed upload stored, or empty where none did.
    pub fn get_compressed_image(&self, id: u32, level: usize) -> (r: Vec<u8>)
        requires
            self.spec_live(id),
            level < self.spec_storage(id).levels@.len(),
        ensures
            r@ == match self.spec_storage(id).levels@[level as int].compressed {
                Some(b) => b@,
                None => Seq::<u8>::empty(),
            },
    {
        let idx: usize = (id - 1) as usize;
        match &self.textures[idx] {
            Some(st) => match &st.levels[level].compressed {
                Some(b) => copy_bytes(b),
                None => Vec::new(),
            },
            None => vstd::pervasive::unreached(),
        }
    }

    /// Uploads an uncompressed sub-rectangle into the first texel grid of
    /// one allocated level: the rectangle holds the decoded client data,
    /// everything else of the context is unchanged.
    pub fn tex_sub_image_2d(
        &mut self,
        id: u32,
        level: usize,
        x: u32,
        y: u32,
        fmt: ClientFormat,
        data: &Vec<u8>,
        w: u32,
        h: u32,
        dw: u32,
        dh: u32,
    )
        requires
            old(self).spec_live(id),
            level < old(self).spec_storage(id).levels@.len(),
            old(self).spec_storage(id).levels@[level as int].layers@.len() >= 1,
            grid_wf(
                grid_view(old(self).spec_storage(id).levels@[level as int].layers@[0]),
                dw as nat,
                dh as nat,
            ),
            x + w <= dw,
            y + h <= dh,
            !fmt.spec_is_compressed(),
            fmt.spec_bytes_per_pixel() * (w as nat) * (h as nat) <= data@.len(),
        ensures
            final(self).spec_live(id),
            final(self).textures@.len() == old(self).textures@.len(),
            forall|n: u32|
                n != id && old(self).spec_live(n) ==> final(self).spec_live(n)
                    && final(self).spec_storage(n) == old(self).spec_storage(n),
            forall|p: int|
                0 <= p < old(self).textures@.len() && p != id - 1 ==> (
                #[trigger] final(self).textures@[p]) == old(self).textures@[p],
            ({
                let st0 = old(self).spec_storage(id);
                let st1 = final(self).spec_storage(id);
                &&& st1.internal_code == st0.internal_code
                &&& st1.compressed_storage == st0.compressed_storage
                &&& st1.immutable == st0.immutable
                &&& st1.levels@.len() == st0.levels@.len()
                &&& forall|l: int|
                    0 <= l < st0.levels@.len() && l != level ==> st1.levels@[l] == st0.levels@[l]
                &&& st1.levels@[level as int].compressed == st0.levels@[level as int].compressed
                &&& st1.levels@[level as int].layers@.len() == st0.levels@[
                    level as int
                ].layers@.len()
                &&& forall|k: int|
                    1 <= k < st0.levels@[level as int].layers@.len() ==> st1.levels@[
                        level as int
                    ].layers@[k] == st0.levels@[level as int].layers@[k]
                &&& grid_view(st1.levels@[level as int].layers@[0]) == spec_blit(
                    grid_view(st0.levels@[level as int].layers@[0]),
                    x as nat,
                    y as nat,
                    spec_decode(fmt, data@, 0, w as nat, h as nat),
                    w as nat,
                    h as nat,
                )
            }),
            final(self).version == old(self).version,
            final(self).extensions == old(self).extensions,
            final(self).active_texture == old(self).active_texture,
            final(self).texture_units == old(self).texture_units,
            final(self).pixel_store_unpack_alignment == old(self).pixel_store_unpack_alignment,
            final(self).pixel_store_pack_alignment == old(self).pixel_store_pack_alignment,
            final(self).attachments == old(self).attachments,
            final(self).bind_calls == old(self).bind_calls,
            final(self).format_queries == old(self).format_queries,
            final(self).mipmap_generations == old(self).mipmap_generations,
    {
        let src = decode_grid(fmt, data, 0, w, h);
        proof {
            assert(grid_wf(grid_view(src), w as nat, h as nat));
        }
        let idx: usize = (id - 1) as usize;
        let slot: &mut Option<TextureStorage> = &mut self.textures[idx];
        match slot {
            Some(st) => {
                let ls: &mut LevelStorage = &mut st.levels[level];
                let grid: &mut Grid = &mut ls.layers[0];
                blit(grid, x, y, &src, w, h, dw, dh);
            },
            None => {},
        }
    }

    /// Replaces the compressed byte blob of one allocated level with the
    /// given client data; texel grids and everything else are unchanged.
    pub fn compressed_tex_sub_image_2d(&mut self, id: u32, level: usize, data: &Vec<u8>)
        requires
            old(self).spec_live(id),
            level < old(self).spec_storage(id).levels@.len(),
        ensures
            final(self).spec_live(id),
            final(self).textures@.len() == old(self).textures@.len(),
            forall|n: u32|
                n != id && old(self).spec_live(n) ==> final(self).spec_live(n)
                    && final(self).spec_storage(n) == old(self).spec_storage(n),
            forall|p: int|
                0 <= p < old(self).textures@.len() && p != id - 1 ==> (
                #[trigger] final(self).textures@[p]) == old(self).textures@[p],
            ({
                let st0 = old(self).spec_storage(id);
                let st1 = final(self).spec_storage(id);
                &&& st1.internal_code == st0.internal_code
                &&& st1.compressed_storage == st0.compressed_storage
                &&& st1.immutable == st0.immutable
                &&& st1.levels@.len() == st0.levels@.len()
                &&& forall|l: int|
                    0 <= l < st0.levels@.len() && l != level ==> st1.levels@[l] == st0.levels@[l]
                &&& st1.levels@[level as int].layers == st0.levels@[level as int].layers
                &&& st1.levels@[level as int].compressed matches Some(b) && b@ == data@
            }),
            final(self).version == old(self).version,
            final(self).extensions == old(self).extensions,
            final(self).active_texture == old(self).active_texture,
            final(self).texture_units == old(self).texture_units,
            final(self).pixel_store_unpack_alignment == old(self).pixel_store_unpack_alignment,
            final(self).pixel_store_pack_alignment == old(self).pixel_store_pack_alignment,
            final(self).attachments == old(self).attachments,
            final(self).bind_calls == old(self).bind_calls,
            final(self).format_queries == old(self).format_queries,
            final(self).mipmap_generations == old(self).mipmap_generations,
    {
        let blob = copy_bytes(data);
        let idx: usize = (id - 1) as usize;
        let slot: &mut Option<TextureStorage> = &mut self.textures[idx];
        match slot {
            Some(st) => {
                let ls: &mut LevelStorage = &mut st.levels[level];
                ls.compressed = Some(blob);
            },
            None => {},
        }
    }

    /// Clears every texture-unit shadow slot that holds texture `id`.
    pub fn clear_unit_bindings(&mut self, id: u32)
        ensures
            final(self).texture_units@.len() == old(self).texture_units@.len(),
            forall|u: int|
                0 <= u < old(self).texture_units@.len() ==> final(self).texture_units@[u] == (
                if old(self).texture_units@[u] == id {
                    0u32
                } else {
                    old(self).texture_units@[u]
                }),
            final(self).version == old(self).version,
            final(self).extensions == old(self).extensions,
            final(self).active_texture == old(self).active_texture,
            final(self).pixel_store_unpack_alignment == old(self).pixel_store_unpack_alignment,
            final(self).pixel_store_pack_alignment == old(self).pixel_store_pack_alignment,
            final(self).textures == old(self).textures,
            final(self).attachments == old(self).attachments,
            final(self).bind_calls == old(self).bind_calls,
            final(self).format_queries == old(self).format_queries,
            final(self).mipmap_generations == old(self).mipmap_generations,
    {
        let n: usize = self.texture_units.len();
        let mut u: usize = 0;
        while u < n
            invariant
                n == self.texture_units@.len(),
                u <= n,
                forall|p: int|
                    0 <= p < u ==> self.texture_units@[p] == (if old(self).texture_units@[p] == id {
                        0u32
                    } else {
                        old(self).texture_units@[p]
                    }),
                forall|p: int|
                    u <= p < n ==> self.texture_units@[p] == old(self).texture_units@[p],
                self.version == old(self).version,
                self.extensions == old(self).extensions,
                self.active_texture == old(self).active_texture,
                self.pixel_store_unpack_alignment == old(self).pixel_store_unpack_alignment,
                self.pixel_store_pack_alignment == old(self).pixel_store_pack_alignment,
                self.textures == old(self).textures,
                self.attachments == old(self).attachments,
                self.bind_calls == old(self).bind_calls,
                self.format_queries == old(self).format_queries,
                self.mipmap_generations == old(self).mipmap_generations,
            decreases n - u,
        {
            if self.texture_units[u] == id {
                self.texture_units[u] = 0;
            }
            u = u + 1;
        }
    }
}

} // verus!
