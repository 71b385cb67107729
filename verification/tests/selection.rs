use probe_cascades::aabb::Aabb;
use probe_cascades::cascade::CascadeInput;
use probe_cascades::cascade::CascadeUniform;
use probe_cascades::registry::CascadeSet;
use probe_cascades::select::select_cascade;
use probe_cascades::select::select_cascade_for_point;
use probe_cascades::select::select_for_draws;
use probe_cascades::select::try_select_cascade;
use probe_cascades::vec3::Vec3;

fn v(x: i64, y: i64, z: i64) -> Vec3 {
    Vec3 { x, y, z }
}

fn bx(min: Vec3, max: Vec3) -> Aabb {
    Aabb { min, max }
}

fn cascade(name: &str, min: Vec3, max: Vec3, spacing: Vec3) -> CascadeUniform {
    CascadeInput {
        name: String::from(name),
        ws_aabb: bx(min, max),
        spacing,
    }
    .into_uniform()
}

#[test]
fn single_cascade_is_selected() {
    // One volume spanning [0,10]^3 at spacing 2 (5 probes per axis); a
    // query fully inside must pick it.
    let c = cascade("only", v(0, 0, 0), v(10, 10, 10), v(2, 2, 2));
    assert_eq!(c.cascade_res, v(5, 5, 5));
    let cascades = vec![c];
    let idx = select_cascade(&cascades, bx(v(4, 4, 4), v(6, 6, 6)));
    assert_eq!(idx, 0);
}

#[test]
fn near_tie_goes_to_higher_density() {
    // Both volumes fully contain the query, so their fit scores are
    // equal; the denser grid (spacing 1 vs 2 at equal probe counts) must
    // win from either position in the list.
    let coarse = cascade("coarse", v(0, 0, 0), v(20, 20, 20), v(2, 2, 2));
    let fine = cascade("fine", v(4, 4, 4), v(14, 14, 14), v(1, 1, 1));
    assert_eq!(coarse.cascade_res, v(10, 10, 10));
    assert_eq!(fine.cascade_res, v(10, 10, 10));
    let q = bx(v(8, 8, 8), v(12, 12, 12));
    assert_eq!(select_cascade(&vec![coarse.clone(), fine.clone()], q), 1);
    assert_eq!(select_cascade(&vec![fine, coarse], q), 0);
}

#[test]
fn engulfing_cascade_beats_barely_clipping() {
    // The first volume contains the query comfortably; the second's
    // enlarged region only grazes it, so the margin cannot save it even
    // though its grid is denser.
    let engulfing = cascade("big", v(-10, -10, -10), v(10, 10, 10), v(2, 2, 2));
    let grazing = cascade("thin", v(6, 0, 0), v(10, 4, 4), v(1, 1, 1));
    let q = bx(v(0, 0, 0), v(4, 4, 4));
    assert_eq!(select_cascade(&vec![engulfing.clone(), grazing.clone()], q), 0);
    assert_eq!(select_cascade(&vec![grazing, engulfing], q), 1);
}

#[test]
fn disjoint_cascades_pick_nearest_by_ray() {
    // Neither enlarged region touches the query; the ray cast from the
    // query center must favor the nearer volume, whatever its position
    // in the list.
    let near = cascade("near", v(20, 0, 0), v(24, 4, 4), v(1, 1, 1));
    let far = cascade("far", v(40, 0, 0), v(44, 4, 4), v(1, 1, 1));
    let q = bx(v(0, 0, 0), v(2, 2, 2));
    assert_eq!(select_cascade(&vec![near.clone(), far.clone()], q), 0);
    assert_eq!(select_cascade(&vec![far, near], q), 1);
}

#[test]
fn empty_collection_is_a_checked_condition() {
    let none: Vec<CascadeUniform> = Vec::new();
    let q = bx(v(0, 0, 0), v(2, 2, 2));
    assert!(try_select_cascade(&none, q).is_none());
    let one = vec![cascade("only", v(0, 0, 0), v(10, 10, 10), v(2, 2, 2))];
    assert_eq!(try_select_cascade(&one, q), Some(0));
}

#[test]
fn point_query_selects_containing_cascade() {
    let here = cascade("here", v(0, 0, 0), v(10, 10, 10), v(2, 2, 2));
    let elsewhere = cascade("elsewhere", v(100, 100, 100), v(110, 110, 110), v(2, 2, 2));
    let cascades = vec![elsewhere, here];
    let idx = select_cascade_for_point(&cascades, v(5, 5, 5));
    assert_eq!(idx, 1);
}

#[test]
fn point_query_far_from_all_selects_nearest() {
    let near = cascade("near", v(200, 0, 0), v(210, 10, 10), v(2, 2, 2));
    let far = cascade("far", v(900, 0, 0), v(910, 10, 10), v(2, 2, 2));
    let cascades = vec![far, near];
    let idx = select_cascade_for_point(&cascades, v(0, 5, 5));
    assert_eq!(idx, 1);
}

#[test]
fn point_touching_influence_region_is_perfect_match() {
    // The enlarged region of [4,8]^3 at spacing 1 is [2,10]^3; a point
    // query exactly at its corner overlaps it in a single point, a
    // zero-over-zero ratio that must count as a perfect match rather
    // than poison the selection.
    let touched = cascade("touched", v(4, 4, 4), v(8, 8, 8), v(1, 1, 1));
    let far = cascade("far", v(1000, 1000, 1000), v(1010, 1010, 1010), v(2, 2, 2));
    let cascades = vec![far, touched];
    let idx = select_cascade_for_point(&cascades, v(2, 2, 2));
    assert_eq!(idx, 1);
}

#[test]
fn batch_selection_matches_single_selection() {
    let a = cascade("a", v(0, 0, 0), v(10, 10, 10), v(2, 2, 2));
    let b = cascade("b", v(20, 0, 0), v(30, 10, 10), v(1, 1, 1));
    let cascades = vec![a, b];
    let draws = vec![
        bx(v(2, 2, 2), v(4, 4, 4)),
        bx(v(22, 2, 2), v(24, 4, 4)),
        bx(v(100, 100, 100), v(102, 102, 102)),
    ];
    let picked = select_for_draws(&cascades, &draws);
    assert_eq!(picked.len(), 3);
    for (i, q) in draws.iter().enumerate() {
        assert_eq!(picked[i], select_cascade(&cascades, *q));
    }
    assert_eq!(picked[0], 0);
    assert_eq!(picked[1], 1);
}

#[test]
fn registry_lazily_derives_and_lists_in_order() {
    let mut set = CascadeSet::new();
    set.insert(CascadeInput {
        name: String::from("a"),
        ws_aabb: bx(v(0, 0, 0), v(10, 10, 10)),
        spacing: v(2, 2, 2),
    });
    set.insert(CascadeInput {
        name: String::from("b"),
        ws_aabb: bx(v(20, 0, 0), v(30, 10, 10)),
        spacing: v(1, 1, 1),
    });
    assert_eq!(set.len(), 2);
    set.generate_cascade_data();
    let uniforms = set.uniforms();
    assert_eq!(uniforms.len(), 2);
    assert_eq!(uniforms[0].probes_gi, "bake/probes_gi_a.png");
    assert_eq!(uniforms[1].probes_gi, "bake/probes_gi_b.png");
    let idx = select_cascade(&uniforms, bx(v(22, 2, 2), v(24, 4, 4)));
    assert_eq!(idx, 1);
}

#[test]
fn registry_replaces_same_name_and_rederives() {
    let mut set = CascadeSet::new();
    let replaced = set.insert(CascadeInput {
        name: String::from("a"),
        ws_aabb: bx(v(0, 0, 0), v(10, 10, 10)),
        spacing: v(2, 2, 2),
    });
    assert!(!replaced);
    set.generate_cascade_data();
    let replaced = set.insert(CascadeInput {
        name: String::from("a"),
        ws_aabb: bx(v(0, 0, 0), v(12, 12, 12)),
        spacing: v(3, 3, 3),
    });
    assert!(replaced);
    assert_eq!(set.len(), 1);
    set.generate_cascade_data();
    let uniforms = set.uniforms();
    assert_eq!(uniforms[0].cascade_res, v(4, 4, 4));
    assert_eq!(uniforms[0].cascade_spacing, v(3, 3, 3));
}

#[test]
fn registry_view_uniforms_follow_entry_order() {
    let mut set = CascadeSet::new();
    set.insert(CascadeInput {
        name: String::from("a"),
        ws_aabb: bx(v(0, 0, 0), v(10, 10, 10)),
        spacing: v(2, 2, 2),
    });
    set.insert(CascadeInput {
        name: String::from("b"),
        ws_aabb: bx(v(20, 0, 0), v(30, 10, 10)),
        spacing: v(1, 1, 1),
    });
    set.generate_cascade_data();
    let uniforms = set.uniforms();
    let view = set.view_uniforms();
    assert_eq!(view.len(), 2);
    let idx = select_cascade_for_point(&uniforms, v(25, 5, 5)) as usize;
    assert_eq!(idx, 1);
    assert_eq!(view[idx].probes_gi, uniforms[idx].probes_gi);
    assert_eq!(view[idx].cascade_position, uniforms[idx].cascade_position);
    assert_eq!(view[idx].cascade_res, uniforms[idx].cascade_res);
}

#[test]
fn registry_removes_by_name() {
    let mut set = CascadeSet::new();
    set.insert(CascadeInput {
        name: String::from("a"),
        ws_aabb: bx(v(0, 0, 0), v(10, 10, 10)),
        spacing: v(2, 2, 2),
    });
    set.insert(CascadeInput {
        name: String::from("b"),
        ws_aabb: bx(v(20, 0, 0), v(30, 10, 10)),
        spacing: v(1, 1, 1),
    });
    assert!(set.remove(&String::from("a")));
    assert_eq!(set.len(), 1);
    assert!(!set.remove(&String::from("zz")));
    assert_eq!(set.len(), 1);
}
