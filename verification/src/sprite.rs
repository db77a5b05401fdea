//! Sprites and the sprite-catalog builder.
//!
//! A sheet description names one sheet image and a list of named
//! sub-rectangles. `create_sprites` acquires the sheet's resource from the
//! texture cache exactly once and produces one sprite per entry, in entry
//! order, all sharing that one resource handle. A sprite renders by issuing
//! a copy request whose destination rectangle has exactly its source
//! sub-rectangle's size: rendering never scales.

use vstd::prelude::*;

use crate::errors::ResourceLoadError;
use crate::pixels::Color;
use crate::rect::Rect;
use crate::texture::{
    TextureHandle, TextureManager, loader_callable, loader_returned, path_index,
};

verus! {

/// The closed set of sprite identities this deployment recognizes.
#[derive(Clone, Copy, Debug, PartialEq, Eq, Hash, Structural)]
pub enum SpriteName {
    RedCircle,
    GreenCircle,
    YellowCircle,
    BlueCircle,
}

/// One entry of a sheet description: a named sub-rectangle `(x, y, w, h)`
/// within the sheet image's pixel bounds.
#[derive(Clone, Copy, Debug, PartialEq, Eq, Structural)]
pub struct SpriteData {
    pub name: SpriteName,
    pub x: i32,
    pub y: i32,
    pub w: u32,
    pub h: u32,
}

/// A parsed sheet description: the path of the sheet image and the ordered
/// list of sprite entries cut from it.
pub struct SpriteSheetData {
    pub spritesheet: String,
    pub sprites: Vec<SpriteData>,
}

/// A named view into a shared image resource: the handle of the resource,
/// the source sub-rectangle selecting this sprite's pixels, and the
/// sprite's identity. Immutable after construction; many sprites may share
/// one resource.
#[derive(Clone, Copy, Debug, PartialEq, Eq, Structural)]
pub struct Sprite {
    pub texture: TextureHandle,
    pub src_rect: Rect,
    pub name: SpriteName,
}

/// One copy operation for the host renderer: copy the pixels under `src` in
/// `texture`'s image onto the rectangle `dst` of the render target.
#[derive(Clone, Copy, Debug, PartialEq, Eq, Structural)]
pub struct CopyRequest {
    pub texture: TextureHandle,
    pub src: Rect,
    pub dst: Rect,
}

impl Sprite {
    pub fn new(texture: TextureHandle, src_rect: Rect, name: SpriteName) -> (s: Sprite)
        ensures
            s == (Sprite { texture, src_rect, name }),
    {
        Sprite { texture, src_rect, name }
    }

    /// The copy request that renders this sprite at `(x, y)` on a target:
    /// source is the sprite's sub-rectangle, destination is anchored at
    /// `(x, y)` with exactly the source's width and height, so rendering
    /// never scales.
    pub fn render(&self, x: i32, y: i32) -> (req: CopyRequest)
        ensures
            req.texture == self.texture,
            req.src == self.src_rect,
            req.dst == (Rect { x, y, w: self.src_rect.w, h: self.src_rect.h }),
    {
        let dest_rect = Rect::new(x, y, self.src_rect.width(), self.src_rect.height());
        CopyRequest { texture: self.texture, src: self.src_rect, dst: dest_rect }
    }
}

/// Builds the catalog a sheet description asks for: acquires the sheet's
/// resource from the cache exactly once (loading it only if it is not yet
/// cached), then produces one sprite per entry, in entry order, every one
/// sharing that resource's handle. The builder itself does no fallible
/// work: the only failure is the acquisition's, returned untouched, with
/// the cache left exactly as it was.
pub fn create_sprites<T, F: FnOnce(String, Option<Color>) -> Result<T, String>>(
    sprite_data: SpriteSheetData,
    texture_manager: &mut TextureManager<T>,
    loader: F,
) -> (res: Result<Vec<Sprite>, ResourceLoadError>)
    requires
        old(texture_manager).wf(),
        loader_callable(loader, sprite_data.spritesheet@, Option::<Color>::None),
    ensures
        final(texture_manager).wf(),
        old(texture_manager).spec_contains(sprite_data.spritesheet@) ==> (res is Ok
            && *final(texture_manager) == *old(texture_manager)),
        !old(texture_manager).spec_contains(sprite_data.spritesheet@) && res is Ok
            ==> final(texture_manager).paths() == old(texture_manager).paths().push(
            sprite_data.spritesheet@,
        ) && loader_returned(
            loader,
            sprite_data.spritesheet@,
            Option::<Color>::None,
            Ok(final(texture_manager).resources().last()),
        ),
        res matches Ok(catalog) ==> final(texture_manager).spec_contains(sprite_data.spritesheet@)
            && catalog@.len() == sprite_data.sprites@.len() && (forall|i: int|
            0 <= i < catalog@.len() ==> (#[trigger] catalog@[i]).texture.index as int == path_index(
                final(texture_manager).paths(),
                sprite_data.spritesheet@,
            ) && catalog@[i].src_rect == (Rect {
                x: sprite_data.sprites@[i].x,
                y: sprite_data.sprites@[i].y,
                w: sprite_data.sprites@[i].w,
                h: sprite_data.sprites@[i].h,
            }) && catalog@[i].name == sprite_data.sprites@[i].name),
        res matches Err(e) ==> *final(texture_manager) == *old(texture_manager)
            && !old(texture_manager).spec_contains(sprite_data.spritesheet@)
            && e.path@ == sprite_data.spritesheet@
            && loader_returned(
            loader,
            sprite_data.spritesheet@,
            Option::<Color>::None,
            Err(e.cause),
        ),
{
    let acquired = texture_manager.load_texture(sprite_data.spritesheet.as_str(), None, loader);
    match acquired {
        Ok(h) => {
            let mut sprites: Vec<Sprite> = Vec::new();
            let n = sprite_data.sprites.len();
            for i in 0..n
                invariant
                    n == sprite_data.sprites@.len(),
                    sprites@.len() == i,
                    forall|j: int|
                        0 <= j < i ==> (#[trigger] sprites@[j]) == (Sprite {
                            texture: h,
                            src_rect: Rect {
                                x: sprite_data.sprites@[j].x,
                                y: sprite_data.sprites@[j].y,
                                w: sprite_data.sprites@[j].w,
                                h: sprite_data.sprites@[j].h,
                            },
                            name: sprite_data.sprites@[j].name,
                        }),
            {
                let d = sprite_data.sprites[i];
                sprites.push(Sprite::new(h, Rect::new(d.x, d.y, d.w, d.h), d.name));
            }
            Ok(sprites)
        },
        Err(e) => Err(e),
    }
}

/// The first sprite of the catalog carrying `name`, if any: the by-name
/// view of a catalog built by `create_sprites`.
pub fn find_sprite(catalog: &Vec<Sprite>, name: SpriteName) -> (r: Option<&Sprite>)
    ensures
        r is Some <==> (exists|i: int| 0 <= i < catalog@.len() && catalog@[i].name == name),
        r matches Some(s) ==> exists|i: int|
            0 <= i < catalog@.len() && catalog@[i] == *s && #[trigger] catalog@[i].name == name,
{
    let n = catalog.len();
    for i in 0..n
        invariant
            n == catalog@.len(),
            forall|j: int| 0 <= j < i ==> catalog@[j].name != name,
    {
        if catalog[i].name == name {
            return Some(&catalog[i]);
        }
    }
    None
}

} // verus!
