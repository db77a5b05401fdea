use sprite_catalog::rect::Rect;
use sprite_catalog::sprite::{
    create_sprites, find_sprite, CopyRequest, Sprite, SpriteData, SpriteName, SpriteSheetData,
};
use sprite_catalog::texture::{TextureHandle, TextureManager};

fn two_sprite_sheet() -> SpriteSheetData {
    SpriteSheetData {
        spritesheet: "sheet.png".to_string(),
        sprites: vec![
            SpriteData { name: SpriteName::RedCircle, x: 0, y: 0, w: 32, h: 32 },
            SpriteData { name: SpriteName::BlueCircle, x: 32, y: 0, w: 32, h: 32 },
        ],
    }
}

#[test]
fn test_catalog_of_two_sprites() {
    let mut manager: TextureManager<u64> = TextureManager::new();
    let catalog = create_sprites(two_sprite_sheet(), &mut manager, |_path, _color_key| Ok(7u64))
        .expect("build must succeed for a loadable sheet");
    assert_eq!(catalog.len(), 2);
    assert_eq!(catalog[0].texture, catalog[1].texture);
    assert_eq!(catalog[0].name, SpriteName::RedCircle);
    assert_eq!(catalog[1].name, SpriteName::BlueCircle);
    assert_eq!(catalog[0].src_rect, Rect { x: 0, y: 0, w: 32, h: 32 });
    assert_eq!(catalog[1].src_rect, Rect { x: 32, y: 0, w: 32, h: 32 });
    assert_eq!(manager.len(), 1);
    assert_eq!(manager.get(catalog[0].texture), Some(&7u64));
}

#[test]
fn test_catalog_completeness_and_order() {
    let sheet = SpriteSheetData {
        spritesheet: "circles.png".to_string(),
        sprites: vec![
            SpriteData { name: SpriteName::YellowCircle, x: 64, y: 0, w: 16, h: 16 },
            SpriteData { name: SpriteName::GreenCircle, x: 0, y: 64, w: 16, h: 16 },
            SpriteData { name: SpriteName::RedCircle, x: 16, y: 64, w: 8, h: 24 },
            SpriteData { name: SpriteName::BlueCircle, x: 24, y: 64, w: 8, h: 24 },
        ],
    };
    let expected: Vec<SpriteData> = sheet.sprites.clone();
    let mut manager: TextureManager<u64> = TextureManager::new();
    let catalog = create_sprites(sheet, &mut manager, |_path, _color_key| Ok(11u64))
        .expect("build must succeed for a loadable sheet");
    assert_eq!(catalog.len(), expected.len());
    for (sprite, entry) in catalog.iter().zip(expected.iter()) {
        assert_eq!(sprite.name, entry.name);
        assert_eq!(
            sprite.src_rect,
            Rect { x: entry.x, y: entry.y, w: entry.w, h: entry.h }
        );
        assert_eq!(sprite.texture, catalog[0].texture);
    }
}

#[test]
fn test_builder_reuses_cached_sheet() {
    let mut manager: TextureManager<u64> = TextureManager::new();
    let first = create_sprites(two_sprite_sheet(), &mut manager, |_path, _color_key| Ok(7u64))
        .expect("first build must succeed");
    let second = create_sprites(
        two_sprite_sheet(),
        &mut manager,
        |_path, _color_key| -> Result<u64, String> {
            panic!("the decoder must not run again for a cached sheet")
        },
    )
    .expect("second build must succeed");
    assert_eq!(manager.len(), 1);
    assert_eq!(first[0].texture, second[0].texture);
    assert_eq!(first, second);
}

#[test]
fn test_builder_propagates_load_failure() {
    let mut manager: TextureManager<u64> = TextureManager::new();
    let err = create_sprites(two_sprite_sheet(), &mut manager, |_path, _color_key| {
        Err("could not open file".to_string())
    })
    .expect_err("build must fail when the sheet does not load");
    assert_eq!(err.path, "sheet.png");
    assert_eq!(err.cause, "could not open file");
    assert_eq!(manager.len(), 0);
}

#[test]
fn test_render_never_scales() {
    let sprite = Sprite::new(
        TextureHandle { index: 0 },
        Rect::new(32, 0, 32, 48),
        SpriteName::BlueCircle,
    );
    let request = sprite.render(100, 50);
    assert_eq!(
        request,
        CopyRequest {
            texture: TextureHandle { index: 0 },
            src: Rect { x: 32, y: 0, w: 32, h: 48 },
            dst: Rect { x: 100, y: 50, w: 32, h: 48 },
        }
    );
}

#[test]
fn test_render_at_negative_position() {
    let sprite = Sprite::new(
        TextureHandle { index: 3 },
        Rect::new(0, 0, 64, 64),
        SpriteName::GreenCircle,
    );
    let request = sprite.render(-10, -20);
    assert_eq!(request.dst, Rect { x: -10, y: -20, w: 64, h: 64 });
    assert_eq!(request.src, Rect { x: 0, y: 0, w: 64, h: 64 });
    assert_eq!(request.texture, TextureHandle { index: 3 });
}

#[test]
fn test_find_sprite_by_name() {
    let mut manager: TextureManager<u64> = TextureManager::new();
    let catalog = create_sprites(two_sprite_sheet(), &mut manager, |_path, _color_key| Ok(7u64))
        .expect("build must succeed");
    let blue = find_sprite(&catalog, SpriteName::BlueCircle).expect("BlueCircle is in the sheet");
    assert_eq!(blue.src_rect, Rect { x: 32, y: 0, w: 32, h: 32 });
    assert_eq!(find_sprite(&catalog, SpriteName::YellowCircle), None);
}

#[test]
fn test_empty_description_builds_empty_catalog() {
    let sheet = SpriteSheetData { spritesheet: "sheet.png".to_string(), sprites: vec![] };
    let mut manager: TextureManager<u64> = TextureManager::new();
    let catalog = create_sprites(sheet, &mut manager, |_path, _color_key| Ok(1u64))
        .expect("build of an empty description must succeed");
    assert!(catalog.is_empty());
    assert_eq!(manager.len(), 1);
}
