use lib::gp0::{
    draw_primitive_count, gp0_command_has_playfield_draw_bounds,
    gp0_command_is_linked_list_artifact_draw, gp0_command_is_replay_safe_draw,
    gp0_replay_safe_draw_command_ranges,
};

#[test]
fn gpu_unlinked_replay_counts_all_gp0_draw_primitive_opcodes() {
    let mut counts = [0u32; 256];
    counts[0x29] = 3;
    counts[0x39] = 5;
    counts[0xe1] = 99;

    assert_eq!(draw_primitive_count(&counts), 8);
}

#[test]
fn gp0_replay_safe_draw_rejects_oversized_shaded_textured_quad() {
    let corrupt = [
        0x3da0_fc20,
        0x02aa_f700,
        0x0000_0000,
        0x00e9_0000,
        0x000c_fe97,
        0x0000_0000,
        0x0000_0000,
        0x38a0_03c0,
        0xff1e_1ea0,
        0x0000_0000,
        0x00f9_0000,
        0xfffa_fee0,
    ];

    assert!(gp0_command_has_playfield_draw_bounds(&corrupt));
    assert!(!gp0_command_is_replay_safe_draw(&corrupt));
    assert!(gp0_replay_safe_draw_command_ranges(&corrupt).is_empty());
}

#[test]
fn gp0_replay_safe_draw_rejects_title_overlay_textured_triangles() {
    let corrupt_triangles = [
        [
            0x2634_0082,
            0x0000_308d,
            0x0000_0000,
            0x00c1_0000,
            0x0308_ff6d,
            0xa000_e1f4,
            0x0000_0300,
        ],
        [
            0x2435_cf8e,
            0x00eb_f0eb,
            0x0000_0000,
            0x00f7_0000,
            0x02ed_feba,
            0x0000_0000,
            0x0000_0000,
        ],
        [
            0x26fb_00b9,
            0x0000_2ffd,
            0x0000_0000,
            0x00bc_0000,
            0x0304_ff6f,
            0xa000_e1f4,
            0x0000_0300,
        ],
        [
            0x2720_0000,
            0x0000_30a0,
            0x0000_0000,
            0x0139_0000,
            0x0368_ff72,
            0x0000_0000,
            0x3c08_0000,
        ],
        [
            0x248e_cff4,
            0x015f_f072,
            0x0000_0000,
            0x0111_0000,
            0x02ef_fedd,
            0x0000_0000,
            0x0000_0000,
        ],
    ];

    for corrupt in corrupt_triangles {
        assert!(gp0_command_has_playfield_draw_bounds(&corrupt));
        assert!(
            !gp0_command_is_replay_safe_draw(&corrupt),
            "corrupt title overlay primitive should be rejected: {corrupt:?}"
        );
        assert!(gp0_replay_safe_draw_command_ranges(&corrupt).is_empty());
    }
}

#[test]
fn gp0_replay_safe_draw_rejects_title_overlay_shaded_textured_quad() {
    let corrupt = [
        0x3c08_0000,
        0x2a2e_1887,
        0xfeac_d98e,
        0x0000_0000,
        0x0197_0000,
        0x0313_ffd6,
        0x0000_0000,
        0x0000_0000,
        0x21b4_24cc,
        0x02aa_e05a,
        0x0000_0000,
        0x0128_0000,
    ];

    assert!(gp0_command_has_playfield_draw_bounds(&corrupt));
    assert!(!gp0_command_is_replay_safe_draw(&corrupt));
    assert!(gp0_replay_safe_draw_command_ranges(&corrupt).is_empty());
}

#[test]
fn gp0_replay_safe_draw_rejects_high_atlas_title_overlay_quad() {
    let corrupt = [
        0x2e7f_7f7f,
        0x00fb_00e6,
        0x7958_e000,
        0x00fb_0122,
        0x003f_e01f,
        0x0137_00e6,
        0x0000_ff00,
        0x0137_0122,
        0x0000_ff1f,
    ];

    assert!(gp0_command_has_playfield_draw_bounds(&corrupt));
    assert!(!gp0_command_is_linked_list_artifact_draw(&corrupt));
    assert!(!gp0_command_is_replay_safe_draw(&corrupt));
    assert!(gp0_replay_safe_draw_command_ranges(&corrupt).is_empty());
}

#[test]
fn gp0_replay_safe_draw_rejects_high_atlas_title_sparkle_quad() {
    let corrupt = [
        0x2e7f_7f7f,
        0x009c_016d,
        0x7818_8040,
        0x009c_0175,
        0x003f_8048,
        0x00a4_016d,
        0x0000_8840,
        0x00a4_0175,
        0x0000_8848,
    ];

    assert!(gp0_command_has_playfield_draw_bounds(&corrupt));
    assert!(!gp0_command_is_linked_list_artifact_draw(&corrupt));
    assert!(!gp0_command_is_replay_safe_draw(&corrupt));
    assert!(gp0_replay_safe_draw_command_ranges(&corrupt).is_empty());
}

#[test]
fn gp0_replay_safe_draw_rejects_top_warning_glyph_quad() {
    let corrupt = [
        0x2d7f_7f7f,
        0x0048_0061,
        0x78df_1078,
        0x0048_0067,
        0x002f_107e,
        0x0050_0061,
        0x0000_1878,
        0x0050_0067,
        0x0000_187e,
    ];

    assert!(!gp0_command_has_playfield_draw_bounds(&corrupt));
    assert!(!gp0_command_is_replay_safe_draw(&corrupt));
    assert!(gp0_replay_safe_draw_command_ranges(&corrupt).is_empty());
}

#[test]
fn gp0_replay_safe_draw_uses_variable_textured_rect_size_for_bounds() {
    let small_playfield_sprite = [0x6480_8080, 0x0090_0050, 0x0000_0000, 0x0020_0020];
    let oversized_playfield_sprite = [0x6480_8080, 0x0060_0000, 0x0000_0000, 0x01e0_0280];

    assert!(gp0_command_has_playfield_draw_bounds(
        &small_playfield_sprite
    ));
    assert!(gp0_command_is_replay_safe_draw(&small_playfield_sprite));
    assert_eq!(
        gp0_replay_safe_draw_command_ranges(&small_playfield_sprite),
        vec![0..4]
    );

    assert!(gp0_command_has_playfield_draw_bounds(
        &oversized_playfield_sprite
    ));
    assert!(!gp0_command_is_replay_safe_draw(
        &oversized_playfield_sprite
    ));
    assert!(gp0_replay_safe_draw_command_ranges(&oversized_playfield_sprite).is_empty());
}

#[test]
fn gp0_replay_safe_draw_rejects_primitive_pointer_contaminated_quad() {
    let corrupt = [
        0x2e01_a0df,
        0x00b5_018b,
        0x795a_a0c0,
        0x0900_0000,
        0x2e80_8080,
        0x0106_0189,
        0x8038_a4d0,
        0x8038_a808,
        0x0000_0084,
    ];

    assert!(gp0_command_has_playfield_draw_bounds(&corrupt));
    assert!(!gp0_command_is_replay_safe_draw(&corrupt));
    assert!(gp0_replay_safe_draw_command_ranges(&corrupt).is_empty());
}

#[test]
fn gp0_linked_list_artifact_rejects_high_page_title_stripe_quad() {
    let corrupt = [
        0x2e01_a0df,
        0x00be_01f8,
        0x795a_a0c0,
        0x0900_0000,
        0x2e80_8080,
        0x0072_01d3,
        0x78da_afda,
        0x009f_01d5,
        0x0039_afc4,
    ];

    assert!(gp0_command_has_playfield_draw_bounds(&corrupt));
    assert!(gp0_command_is_linked_list_artifact_draw(&corrupt));
    assert!(!gp0_command_is_replay_safe_draw(&corrupt));
    assert!(gp0_replay_safe_draw_command_ranges(&corrupt).is_empty());
}

#[test]
fn gp0_linked_list_artifact_rejects_captured_high_page_title_stripe_quads() {
    let corrupt_quads = [
        [
            0x2e01_a0df,
            0x0077_01a6,
            0x795a_a0c0,
            0x0900_0000,
            0x2e80_8080,
            0x00b5_018b,
            0x78da_afda,
            0x00c5_01a5,
            0x0039_afc4,
        ],
        [
            0x2e10_a0df,
            0x00b6_0191,
            0x795a_a0c0,
            0x0900_0000,
            0x2e80_8080,
            0x0101_018f,
            0x78da_afda,
            0x00f7_01a8,
            0x0039_afc4,
        ],
        [
            0x2e10_a0df,
            0x0101_018f,
            0x795a_a0c0,
            0x0900_0000,
            0x2e80_8080,
            0x013f_01a5,
            0x78da_afda,
            0x011f_01b7,
            0x0039_afc4,
        ],
    ];

    for corrupt in corrupt_quads {
        assert!(gp0_command_has_playfield_draw_bounds(&corrupt));
        assert!(gp0_command_is_linked_list_artifact_draw(&corrupt));
        assert!(!gp0_command_is_replay_safe_draw(&corrupt));
        assert!(gp0_replay_safe_draw_command_ranges(&corrupt).is_empty());
    }
}

#[test]
fn gp0_replay_safe_draw_rejects_left_edge_title_shaded_triangle() {
    let corrupt = [
        0x32a6_2408,
        0xfa2e_0039,
        0x0000_0000,
        0x0150_0000,
        0x031d_fe9f,
        0x0000_0000,
    ];

    assert!(gp0_command_has_playfield_draw_bounds(&corrupt));
    assert!(gp0_command_is_linked_list_artifact_draw(&corrupt));
    assert!(!gp0_command_is_replay_safe_draw(&corrupt));
    assert!(gp0_replay_safe_draw_command_ranges(&corrupt).is_empty());
}

#[test]
fn gp0_replay_safe_draw_rejects_left_edge_title_flat_triangle() {
    let corrupt = [0x2200_eec0, 0x01d8_3040, 0x0000_0000, 0x0139_0000];

    assert!(gp0_command_has_playfield_draw_bounds(&corrupt));
    assert!(gp0_command_is_linked_list_artifact_draw(&corrupt));
    assert!(!gp0_command_is_replay_safe_draw(&corrupt));
    assert!(gp0_replay_safe_draw_command_ranges(&corrupt).is_empty());
}

#[test]
fn gp0_replay_safe_draw_rejects_left_edge_title_textured_sliver() {
    let corrupt = [
        0x3c08_0000,
        0x293b_17ee,
        0xfeac_d7db,
        0x0000_0000,
        0x01ad_0000,
        0x030b_ffdb,
        0x0000_0000,
        0x0000_0000,
        0x1e67_24d9,
        0x02aa_d9f4,
        0x0000_0000,
        0x0137_0000,
    ];

    assert!(gp0_command_has_playfield_draw_bounds(&corrupt));
    assert!(gp0_command_is_linked_list_artifact_draw(&corrupt));
    assert!(!gp0_command_is_replay_safe_draw(&corrupt));
    assert!(gp0_replay_safe_draw_command_ranges(&corrupt).is_empty());
}

#[test]
fn gp0_replay_safe_draw_accepts_bloody_roar_status_quad() {
    let status_quad = [
        0x2c80_8080,
        0x0181_0148,
        0x7adf_e000,
        0x0181_01c8,
        0x000f_e080,
        0x01bf_0148,
        0x0000_ff00,
        0x01bf_01c8,
        0x0000_ff80,
    ];

    assert!(gp0_command_has_playfield_draw_bounds(&status_quad));
    assert!(!gp0_command_is_linked_list_artifact_draw(&status_quad));
    assert!(gp0_command_is_replay_safe_draw(&status_quad));
    assert_eq!(
        gp0_replay_safe_draw_command_ranges(&status_quad),
        vec![0..9]
    );
}
