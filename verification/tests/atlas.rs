use rustle::atlas::take_pre_generated;
use rustle::atlas::{
    clear_global_cache, global_cache_size, import_to_global_cache, quad_indices, sdf_to_rgba,
    take_from_global_cache, GlyphFlags, GlyphKey, GlyphPlacement, PreGeneratedStore, SdfAtlas,
    SdfBitmap, ATLAS_GUTTER, ATLAS_SIZE, FLAG_ACTIVE, FLAG_BG, FLAG_DUET, FLAG_EMPHASIZE,
    FLAG_ROMANIZED, FLAG_TRANSLATION,
};

#[test]
fn shelf_packing_places_side_by_side_then_below() {
    let mut a = SdfAtlas::new();
    assert_eq!(a.allocate(10, 20), Some((ATLAS_GUTTER, ATLAS_GUTTER)));
    // Same shelf, right of the first glyph and its gutters.
    assert_eq!(a.allocate(10, 20), Some((18 + ATLAS_GUTTER, ATLAS_GUTTER)));
    // Too tall for the first shelf: a new shelf below it.
    assert_eq!(a.allocate(5, 40), Some((ATLAS_GUTTER, 28 + ATLAS_GUTTER)));
    // Short glyphs still fit the first shelf.
    assert_eq!(a.allocate(5, 5), Some((36 + ATLAS_GUTTER, ATLAS_GUTTER)));
    assert_eq!(a.rows.len(), 2);
    assert_eq!(a.y_cursor, 28 + 48);
}

#[test]
fn full_atlas_asks_for_rebuild_and_clear_resets() {
    let mut a = SdfAtlas::new();
    let tall = ATLAS_SIZE - 2 * ATLAS_GUTTER;
    assert!(a.allocate(4000, tall).is_some());
    assert_eq!(a.allocate(4000, 10), None);
    assert!(a.needs_rebuild());
    a.clear();
    assert!(!a.needs_rebuild());
    assert_eq!(a.y_cursor, 0);
    assert!(a.allocate(4000, 10).is_some());
}

#[test]
fn glyph_placement() {
    let mut a = SdfAtlas::new();
    assert_eq!(
        a.place_glyph(0, 12, 1, -2),
        Some(GlyphPlacement { x: 0, y: 0, width: 0, height: 0, offset_x: 1, offset_y: -2 })
    );
    assert!(a.rows.is_empty());
    assert_eq!(
        a.place_glyph(8, 9, 3, 4),
        Some(GlyphPlacement { x: 4, y: 4, width: 8, height: 9, offset_x: 3, offset_y: 4 })
    );
}

#[test]
fn rgba_expansion() {
    assert_eq!(sdf_to_rgba(&[7, 200]), vec![7, 7, 7, 255, 200, 200, 200, 255]);
    assert!(sdf_to_rgba(&[]).is_empty());
}

#[test]
fn quad_index_pattern() {
    assert_eq!(quad_indices(0), [0, 1, 2, 2, 3, 0]);
    assert_eq!(quad_indices(40), [40, 41, 42, 42, 43, 40]);
}

#[test]
fn flags_are_independent() {
    let mut f = GlyphFlags::new();
    f.set_active(true);
    f.set_duet(true);
    f.set_romanized(true);
    assert_eq!(f.bits, FLAG_ACTIVE | FLAG_DUET | FLAG_ROMANIZED);
    f.set_active(false);
    assert_eq!(f.bits, FLAG_DUET | FLAG_ROMANIZED);
    f.set_emphasize(true);
    f.set_bg(true);
    f.set_translation(true);
    assert!(f.has(FLAG_EMPHASIZE) && f.has(FLAG_BG) && f.has(FLAG_TRANSLATION));
    assert!(!f.has(FLAG_ACTIVE));
    assert_eq!(f.bits, 62);
}

fn key(g: u16) -> GlyphKey {
    GlyphKey { font_id: 1, glyph_id: g, font_size_bits: 0x4280_0000, x_bin: 0, y_bin: 0, flags: 0 }
}

fn bitmap(w: u32) -> SdfBitmap {
    SdfBitmap { width: w, height: 1, bearing_x: 0, bearing_y: 0, data: vec![1; w as usize] }
}

#[test]
fn pre_generated_store_round_trip() {
    let mut store = PreGeneratedStore::new();
    import_to_global_cache(&mut store, vec![(key(1), bitmap(2)), (key(2), bitmap(3))]);
    assert_eq!(global_cache_size(&store), 2);
    import_to_global_cache(&mut store, vec![(key(1), bitmap(5))]);
    assert_eq!(global_cache_size(&store), 2);
    let got = take_from_global_cache(&mut store, key(1)).expect("stored");
    assert_eq!(got.bitmap.width, 5);
    assert_eq!(global_cache_size(&store), 1);
    assert!(take_from_global_cache(&mut store, key(1)).is_none());
    clear_global_cache(&mut store);
    assert_eq!(global_cache_size(&store), 0);
    assert!(take_from_global_cache(&mut store, key(2)).is_none());
}

use rustle::atlas::{SlotSource, TexturePool};

#[test]
fn texture_pool_reuses_slots() {
    let mut p = TexturePool::new();
    assert_eq!(p.acquire(100, 20), (0, SlotSource::Created));
    assert_eq!(p.acquire(100, 20), (1, SlotSource::Created));
    p.release_all();
    assert_eq!(p.acquire(50, 20), (0, SlotSource::Recreated));
    assert_eq!(p.acquire(100, 20), (1, SlotSource::Reused));
    assert_eq!(p.acquire(100, 20), (2, SlotSource::Created));
    assert!(p.slots.iter().all(|s| s.in_use));
    assert_eq!(p.slots[0].width, 50);
}

#[test]
fn import_keeps_earlier_bitmaps() {
    let mut store = PreGeneratedStore::new();
    import_to_global_cache(&mut store, vec![(key(1), bitmap(2)), (key(2), bitmap(3))]);
    import_to_global_cache(&mut store, vec![(key(3), bitmap(4)), (key(1), bitmap(6))]);
    assert_eq!(global_cache_size(&store), 3);
    assert_eq!(take_from_global_cache(&mut store, key(2)).unwrap().bitmap.width, 3);
    assert_eq!(take_from_global_cache(&mut store, key(1)).unwrap().bitmap.width, 6);
    assert_eq!(take_from_global_cache(&mut store, key(3)).unwrap().bitmap.width, 4);
    assert_eq!(global_cache_size(&store), 0);
}

#[test]
fn full_atlas_is_cleared_and_the_glyph_placed_again() {
    let mut a = SdfAtlas::new();
    let g1 = a.place_glyph_or_clear(4088, 2040, 0, 0).unwrap();
    assert_eq!((g1.x, g1.y), (4, 4));
    let g2 = a.place_glyph_or_clear(4088, 2040, 0, 0).unwrap();
    assert_eq!((g2.x, g2.y), (4, 2052));
    // No room left: the atlas is emptied and the glyph goes to the top left.
    let g3 = a.place_glyph_or_clear(100, 100, 1, 2).unwrap();
    assert_eq!((g3.x, g3.y, g3.offset_x, g3.offset_y), (4, 4, 1, 2));
    // Taller than the whole atlas: nothing.
    assert!(a.place_glyph_or_clear(10, 4090, 0, 0).is_none());
}

#[test]
fn rebuild_flag_after_clearing_and_retrying() {
    let mut a = SdfAtlas::new();
    a.place_glyph_or_clear(4088, 4080, 0, 0).unwrap();
    assert!(!a.needs_rebuild());
    // Full: cleared, placed again, and no rebuild pending any more.
    let g = a.place_glyph_or_clear(10, 10, 0, 0).unwrap();
    assert_eq!((g.x, g.y), (4, 4));
    assert!(!a.needs_rebuild());
    // Taller than the atlas: nothing, and a rebuild is asked for.
    assert!(a.place_glyph_or_clear(10, 4090, 0, 0).is_none());
    assert!(a.needs_rebuild());
}

#[test]
fn pre_generated_bitmaps_come_from_local_then_global() {
    let mut local = PreGeneratedStore::new();
    let mut global = PreGeneratedStore::new();
    import_to_global_cache(&mut local, vec![(key(1), bitmap(2))]);
    import_to_global_cache(&mut global, vec![(key(1), bitmap(7)), (key(2), bitmap(3))]);
    assert_eq!(take_pre_generated(&mut local, &mut global, key(1)).unwrap().bitmap.width, 2);
    assert_eq!(global_cache_size(&global), 2);
    assert_eq!(take_pre_generated(&mut local, &mut global, key(1)).unwrap().bitmap.width, 7);
    assert_eq!(take_pre_generated(&mut local, &mut global, key(2)).unwrap().bitmap.width, 3);
    assert!(take_pre_generated(&mut local, &mut global, key(2)).is_none());
}
