use stereo_scene::asset_server::passthrough::{PassthroughHasher, PassthroughHasherBuilder};
use stereo_scene::asset_server::{add_asset, retrieve_asset, AssetCache};
use stereo_scene::model::colour::Colour;
use stereo_scene::model::texture::GPUTexture;

#[test]
fn colour_channels() {
    let c = Colour::new(1, 2, 3, 4);
    assert_eq!((c.r(), c.g(), c.b(), c.a()), (1, 2, 3, 4));
}

#[test]
fn hasher_starts_at_zero() {
    let h = PassthroughHasherBuilder.build_hasher();
    assert_eq!(h.finish(), 0);
}

#[test]
fn hasher_short_write_shifts_window() {
    let mut h = PassthroughHasher::new();
    h.write(&[1, 2]);
    assert_eq!(h.finish(), 0x0201_0000_0000_0000);
    h.write(&[3]);
    assert_eq!(h.finish(), 0x0302_0100_0000_0000);
}

#[test]
fn hasher_eight_bytes_read_little_endian() {
    let mut h = PassthroughHasher::new();
    h.write(&[1, 2, 3, 4, 5, 6, 7, 8]);
    assert_eq!(h.finish(), 0x0807_0605_0403_0201);
}

#[test]
fn hasher_long_write_keeps_first_eight_bytes() {
    let mut h = PassthroughHasher::new();
    h.write(&[1, 2, 3, 4, 5, 6, 7, 8, 9, 10]);
    assert_eq!(h.finish(), 0x0807_0605_0403_0201);
}

#[test]
fn identity_of_short_seed() {
    let cache = AssetCache::new();
    assert_eq!(cache.identity_for("red"), 0xFF64_6572_0000_0000);
    assert_eq!(cache.identity_for(""), 0xFF00_0000_0000_0000);
}

#[test]
fn seeds_sharing_eight_bytes_collide() {
    let cache = AssetCache::new();
    assert_eq!(cache.identity_for("diffuse_red"), cache.identity_for("diffuse_blue"));
    assert_ne!(cache.identity_for("peach_tex"), cache.identity_for("peach_mat"));
}

#[test]
fn cache_round_trip() {
    let mut cache = AssetCache::new();
    let red = add_asset(&mut cache, "red", Colour::new(255, 0, 0, 255));
    let tex = add_asset(&mut cache, "peach_tex", GPUTexture { handle: 7 });
    assert_eq!(retrieve_asset(&cache, &red), Some(&Colour::new(255, 0, 0, 255)));
    assert_eq!(retrieve_asset(&cache, &tex), Some(&GPUTexture { handle: 7 }));
}

#[test]
fn distinct_identities_resolve_independently() {
    let mut cache = AssetCache::new();
    let red = add_asset(&mut cache, "red", Colour::new(255, 0, 0, 255));
    let blue = add_asset(&mut cache, "blue", Colour::new(0, 0, 255, 255));
    assert_ne!(red.identity(), blue.identity());
    assert_eq!(retrieve_asset(&cache, &red), Some(&Colour::new(255, 0, 0, 255)));
    assert_eq!(retrieve_asset(&cache, &blue), Some(&Colour::new(0, 0, 255, 255)));
}

#[test]
fn colliding_seed_last_write_wins() {
    let mut cache = AssetCache::new();
    let red = add_asset(&mut cache, "diffuse_red", Colour::new(102, 0, 0, 255));
    let blue = add_asset(&mut cache, "diffuse_blue", Colour::new(0, 0, 102, 255));
    assert_eq!(red.identity(), blue.identity());
    assert_eq!(retrieve_asset(&cache, &red), Some(&Colour::new(0, 0, 102, 255)));
    assert_eq!(retrieve_asset(&cache, &blue), Some(&Colour::new(0, 0, 102, 255)));
}

#[test]
fn overwrite_with_other_type_is_detected() {
    let mut cache = AssetCache::new();
    let colour = add_asset(&mut cache, "same", Colour::new(1, 1, 1, 1));
    let tex = add_asset(&mut cache, "same", GPUTexture { handle: 3 });
    assert_eq!(retrieve_asset(&cache, &colour), None);
    assert_eq!(retrieve_asset(&cache, &tex), Some(&GPUTexture { handle: 3 }));
}

#[test]
fn key_from_other_cache_is_missing() {
    let mut a = AssetCache::new();
    let b = AssetCache::new();
    let red = add_asset(&mut a, "red", Colour::new(255, 0, 0, 255));
    assert_eq!(retrieve_asset(&b, &red), None);
}

#[test]
fn keys_compare_by_identity() {
    let mut cache = AssetCache::new();
    let a = add_asset(&mut cache, "red", Colour::new(255, 0, 0, 255));
    let b = add_asset(&mut cache, "red", Colour::new(1, 0, 0, 255));
    let c = add_asset(&mut cache, "blue", Colour::new(0, 0, 255, 255));
    assert!(a == b);
    assert!(a != c);
    let copy = a;
    assert!(copy == a.clone());
}
