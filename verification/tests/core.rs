use geon::training::{collocation_split, reports_progress};
use geon::geodesic::{mom, pos, trace};
use geon::metric::{termination_at, Minkowski, Termination};
use geon::render::{pixel_coords, supersampling, tally, TerminationCounts};
use geon::sky::{hash1, hash2, sector_cell, star_in_cell, StarSeed};

#[test]
fn hash1_known_values() {
    assert_eq!(hash1(0), 0);
    assert_eq!(hash1(1), 0xe220a8397b1dcdaf);
    assert_eq!(hash1(2), 0x6e789e6aa1b965f4);
    assert_eq!(hash1(0xdeadbeef), 0xe99811b42ba6bd11);
    assert_eq!(hash1(u64::MAX), 0x336503c6b835bec0);
}

#[test]
fn hash1_distinct_inputs_give_distinct_hashes() {
    let mut seen = std::collections::HashSet::new();
    for x in 0u64..10_000 {
        assert!(seen.insert(hash1(x)));
    }
}

#[test]
fn hash2_known_values() {
    assert_eq!(hash2(0, 0), 0);
    assert_eq!(hash2(1, 0), 0x758812addcf1755b);
    assert_eq!(hash2(0, 1), 0x7a00a9418bc29719);
    assert_eq!(hash2(-1, -1), 0x700866405ae7b561);
    assert_eq!(hash2(3, 7), 0x1ea531aae41f9c4c);
    assert_eq!(hash2(100, 50), 0xd391f540f284ff95);
}

#[test]
fn stars_in_known_cells() {
    assert_eq!(star_in_cell(0, 0), Some(StarSeed { brightness: 0, temperature: 0 }));
    assert_eq!(star_in_cell(0, 219), Some(StarSeed { brightness: 80, temperature: 106 }));
    assert_eq!(star_in_cell(0, 229), Some(StarSeed { brightness: 170, temperature: 149 }));
    assert_eq!(star_in_cell(2, 239), Some(StarSeed { brightness: 195, temperature: 227 }));
    assert_eq!(star_in_cell(1, 0), None);
    assert_eq!(star_in_cell(100, 50), None);
}

#[test]
fn star_density_is_small() {
    let mut stars = 0usize;
    for i in 0..600i64 {
        for j in 0..256i64 {
            if star_in_cell(i, j).is_some() {
                stars += 1;
            }
        }
    }
    assert_eq!(stars, 624);
}

#[test]
fn sector_cell_wraps_and_alternates() {
    let c = sector_cell(7, 2, 3, 4);
    assert_eq!(c.palette, 1);
    assert!(c.bright_band);
    assert!(!c.bright_check);
    let n = sector_cell(-1, -1, -3, 0);
    assert_eq!(n.palette, 5);
    assert!(!n.bright_band);
    assert!(!n.bright_check);
    assert_eq!(sector_cell(1, 0, 0, 0).palette, sector_cell(7, 0, 0, 0).palette);
    assert_ne!(sector_cell(0, 0, 4, 5).bright_check, sector_cell(0, 0, 5, 5).bright_check);
    assert_ne!(sector_cell(0, 0, 4, 5).bright_check, sector_cell(0, 0, 4, 6).bright_check);
    assert_ne!(sector_cell(0, 1, 0, 0).bright_band, sector_cell(0, 2, 0, 0).bright_band);
    assert_eq!(sector_cell(6, 0, 0, 0).palette, 0);
}

#[test]
fn counts_record_each_outcome() {
    let mut c = TerminationCounts::new();
    c.record(Termination::Captured);
    c.record(Termination::Escaped);
    c.record(Termination::Escaped);
    c.record(Termination::Diverged);
    assert_eq!(c, TerminationCounts { captured: 1, escaped: 2, diverged: 1 });
}

#[test]
fn dominant_outcome_of_a_pixel() {
    let c = TerminationCounts { captured: 0, escaped: 0, diverged: 0 };
    assert_eq!(c.dominant(), Termination::Captured);
    let c = TerminationCounts { captured: 1, escaped: 3, diverged: 0 };
    assert_eq!(c.dominant(), Termination::Escaped);
    let c = TerminationCounts { captured: 2, escaped: 2, diverged: 0 };
    assert_eq!(c.dominant(), Termination::Captured);
    let c = TerminationCounts { captured: 2, escaped: 0, diverged: 2 };
    assert_eq!(c.dominant(), Termination::Captured);
    let c = TerminationCounts { captured: 1, escaped: 1, diverged: 1 };
    assert_eq!(c.dominant(), Termination::Captured);
    let c = TerminationCounts { captured: 1, escaped: 2, diverged: 3 };
    assert_eq!(c.dominant(), Termination::Diverged);
    let c = TerminationCounts { captured: 0, escaped: 2, diverged: 2 };
    assert_eq!(c.dominant(), Termination::Diverged);
    let c = TerminationCounts { captured: 3, escaped: 0, diverged: 1 };
    assert_eq!(c.dominant(), Termination::Captured);
    let c = TerminationCounts { captured: 0, escaped: 0, diverged: 4 };
    assert_eq!(c.dominant(), Termination::Diverged);
    let c = TerminationCounts { captured: 0, escaped: 9, diverged: 0 };
    assert_eq!(c.dominant(), Termination::Escaped);
}

#[test]
fn tally_counts_every_outcome() {
    let outcomes = vec![
        Termination::Escaped,
        Termination::Captured,
        Termination::Escaped,
        Termination::Diverged,
        Termination::Escaped,
    ];
    let c = tally(&outcomes);
    assert_eq!(c, TerminationCounts { captured: 1, escaped: 3, diverged: 1 });
    assert_eq!(c.captured + c.escaped + c.diverged, outcomes.len());
    assert_eq!(tally(&[]), TerminationCounts { captured: 0, escaped: 0, diverged: 0 });
}

#[test]
fn supersampling_grid() {
    let s = supersampling(0);
    assert_eq!((s.per_axis, s.per_pixel), (1, 1));
    let s = supersampling(1);
    assert_eq!((s.per_axis, s.per_pixel), (1, 1));
    let s = supersampling(3);
    assert_eq!((s.per_axis, s.per_pixel), (3, 9));
}

#[test]
fn pixel_coords_row_major() {
    assert_eq!(pixel_coords(0, 4), (0, 0));
    assert_eq!(pixel_coords(5, 4), (1, 1));
    assert_eq!(pixel_coords(11, 4), (3, 2));
    assert_eq!(pixel_coords(7, 1), (0, 7));
}

#[test]
fn position_and_momentum_parts() {
    let y = [1, 2, 3, 4, 5, 6, 7, 8];
    assert_eq!(pos(&y), [1, 2, 3, 4]);
    assert_eq!(mom(&y), [5, 6, 7, 8]);
}

#[test]
fn trace_stops_when_probe_answers() {
    let probe = |s: &i64| if *s >= 10 { Some(Termination::Escaped) } else { None };
    let step = |s: &i64| Some(*s + 1);
    let r = trace(3i64, 100, &probe, &step);
    assert_eq!(r.termination, Termination::Escaped);
    assert_eq!(r.final_state, 10);
    assert_eq!(r.steps_taken, 7);
}

#[test]
fn trace_probes_before_the_first_step() {
    let probe = |_s: &i64| Some(Termination::Captured);
    let step = |s: &i64| Some(*s + 1);
    let r = trace(0i64, 5, &probe, &step);
    assert_eq!(r.termination, Termination::Captured);
    assert_eq!(r.final_state, 0);
    assert_eq!(r.steps_taken, 0);
}

#[test]
fn trace_failed_step_diverges_at_previous_state() {
    let probe = |_s: &i64| None;
    let step = |s: &i64| if *s == 4 { None } else { Some(*s + 1) };
    let r = trace(0i64, 100, &probe, &step);
    assert_eq!(r.termination, Termination::Diverged);
    assert_eq!(r.final_state, 4);
    assert_eq!(r.steps_taken, 4);
}

#[test]
fn trace_exhausted_budget_diverges() {
    let probe = |_s: &i64| None;
    let step = |s: &i64| Some(*s + 2);
    let r = trace(0i64, 6, &probe, &step);
    assert_eq!(r.termination, Termination::Diverged);
    assert_eq!(r.final_state, 12);
    assert_eq!(r.steps_taken, 6);
    let r = trace(5i64, 0, &probe, &step);
    assert_eq!(r.termination, Termination::Diverged);
    assert_eq!(r.final_state, 5);
    assert_eq!(r.steps_taken, 0);
}

#[test]
fn termination_priorities() {
    assert_eq!(termination_at(true, true, true), Some(Termination::Diverged));
    assert_eq!(termination_at(false, true, true), Some(Termination::Captured));
    assert_eq!(termination_at(false, false, true), Some(Termination::Escaped));
    assert_eq!(termination_at(false, false, false), None);
}

#[test]
fn minkowski_name() {
    assert_eq!(Minkowski.name(), "minkowski");
}

#[test]
fn collocation_split_shares_the_batch() {
    assert_eq!(collocation_split(600), (200, 200, 200));
    assert_eq!(collocation_split(1024), (341, 341, 342));
    assert_eq!(collocation_split(6), (2, 2, 2));
    assert_eq!(collocation_split(8), (2, 2, 4));
}

#[test]
fn progress_reports_every_twentieth_and_last_step() {
    let reported: Vec<usize> = (0..100).filter(|&s| reports_progress(s, 100)).collect();
    assert_eq!(reported, (0..100).step_by(5).chain(std::iter::once(99)).collect::<Vec<_>>());
    assert!(reports_progress(0, 6000));
    assert!(reports_progress(300, 6000));
    assert!(!reports_progress(301, 6000));
    assert!(reports_progress(5999, 6000));
    assert!(reports_progress(3, 10));
    assert!(reports_progress(0, 1));
}
