use fixed_point::phases::add_opt;
use fixed_point::phases::max_opt;
use fixed_point::phases::min_opt;
use fixed_point::phases::mul_opt;
use fixed_point::phases::sub_opt;
use fixed_point::phases::PhasesOpt;
use fixed_point::unit::Amp;
use fixed_point::FixedPoint;

type Current = FixedPoint<Amp>;

#[test]
fn sum_skips_absent_phases() {
    assert_eq!(PhasesOpt(Some(5), None, Some(3)).sum(), Some(8));
    assert_eq!(PhasesOpt::<i32>(None, None, None).sum(), None);
    assert_eq!(PhasesOpt(Some(5), None, Some(3)).count(), 2);
    assert_eq!(PhasesOpt(Some(1), Some(2), Some(4)).sum(), Some(7));
    assert_eq!(PhasesOpt(None, Some(2), None).sum(), Some(2));
    assert_eq!(PhasesOpt(Some(0), None, None).sum(), Some(0));
}

#[test]
fn count_is_the_number_of_present_phases() {
    assert_eq!(PhasesOpt::<i32>(None, None, None).count(), 0);
    assert_eq!(PhasesOpt(Some(0), None, None).count(), 1);
    assert_eq!(PhasesOpt(None, Some(0), None).count(), 1);
    assert_eq!(PhasesOpt(None, None, Some(0)).count(), 1);
    assert_eq!(PhasesOpt(Some(1), Some(1), None).count(), 2);
    assert_eq!(PhasesOpt(Some(1), Some(2), Some(3)).count(), 3);
}

#[test]
fn absent_is_not_zero() {
    assert_ne!(PhasesOpt(Some(0), None, None), PhasesOpt(None, None, None));
    assert_eq!(PhasesOpt(Some(0), None, None).min(), Some(0));
    assert_eq!(PhasesOpt(Some(-4), None, None).max(), Some(-4));
    assert_eq!(PhasesOpt(None, Some(7), None).min(), Some(7));
}

#[test]
fn max_and_min_skip_absent_phases() {
    assert_eq!(PhasesOpt(Some(5), None, Some(3)).max(), Some(5));
    assert_eq!(PhasesOpt(Some(5), None, Some(3)).min(), Some(3));
    assert_eq!(PhasesOpt(Some(-1), Some(9), Some(3)).max(), Some(9));
    assert_eq!(PhasesOpt(Some(-1), Some(9), Some(3)).min(), Some(-1));
    assert_eq!(PhasesOpt(Some(2), Some(2), Some(2)).max(), Some(2));
    assert_eq!(PhasesOpt::<i32>(None, None, None).max(), None);
    assert_eq!(PhasesOpt::<i32>(None, None, None).min(), None);
}

#[test]
fn folds_of_two_readings() {
    assert_eq!(add_opt(Some(2), Some(3)), Some(5));
    assert_eq!(add_opt(Some(2), None), Some(2));
    assert_eq!(add_opt(None, Some(3)), Some(3));
    assert_eq!(add_opt::<i32>(None, None), None);
    assert_eq!(max_opt(Some(2), Some(3)), Some(3));
    assert_eq!(max_opt(Some(3), Some(2)), Some(3));
    assert_eq!(max_opt(Some(2), None), Some(2));
    assert_eq!(max_opt(None, Some(3)), Some(3));
    assert_eq!(max_opt::<i32>(None, None), None);
    assert_eq!(min_opt(Some(2), Some(3)), Some(2));
    assert_eq!(min_opt(Some(3), Some(2)), Some(2));
    assert_eq!(min_opt(Some(2), None), Some(2));
    assert_eq!(min_opt(None, Some(3)), Some(3));
    assert_eq!(min_opt::<i32>(None, None), None);
}

#[test]
fn equal_readings_keep_their_side() {
    assert_eq!(max_opt(Some((1, 'l')), Some((1, 'l'))), Some((1, 'l')));
    assert_eq!(max_opt(Some(Tagged(1, 'l')), Some(Tagged(1, 'r'))).map(|t| t.1), Some('r'));
    assert_eq!(min_opt(Some(Tagged(1, 'l')), Some(Tagged(1, 'r'))).map(|t| t.1), Some('l'));
    assert_eq!(max_opt(Some(Tagged(2, 'l')), Some(Tagged(1, 'r'))).map(|t| t.1), Some('l'));
    assert_eq!(min_opt(Some(Tagged(2, 'l')), Some(Tagged(1, 'r'))).map(|t| t.1), Some('r'));
}

#[derive(Debug, Clone, Copy)]
struct Tagged(i32, char);

impl PartialEq for Tagged {
    fn eq(&self, other: &Self) -> bool {
        self.0 == other.0
    }
}

impl Eq for Tagged {}

impl PartialOrd for Tagged {
    fn partial_cmp(&self, other: &Self) -> Option<std::cmp::Ordering> {
        Some(self.cmp(other))
    }
}

impl Ord for Tagged {
    fn cmp(&self, other: &Self) -> std::cmp::Ordering {
        self.0.cmp(&other.0)
    }
}

#[test]
fn difference_negates_a_right_side_that_stands_alone() {
    assert_eq!(sub_opt(Some(5), Some(3)), Some(2));
    assert_eq!(sub_opt(Some(5), None), Some(5));
    assert_eq!(sub_opt(None, Some(3)), Some(-3));
    assert_eq!(sub_opt::<i32>(None, None), None);
    assert_eq!(
        PhasesOpt(Some(5), None, None) - PhasesOpt(Some(3), Some(4), None),
        PhasesOpt(Some(2), Some(-4), None)
    );
}

#[test]
fn sums_phase_by_phase() {
    assert_eq!(
        PhasesOpt(Some(5), None, None) + PhasesOpt(Some(3), Some(4), None),
        PhasesOpt(Some(8), Some(4), None)
    );
    assert_eq!(
        PhasesOpt::<i32>(None, None, None) + PhasesOpt(None, None, None),
        PhasesOpt(None, None, None)
    );
    assert_eq!(
        PhasesOpt(Some(1), Some(2), Some(3)) + PhasesOpt(None, None, None),
        PhasesOpt(Some(1), Some(2), Some(3))
    );
}

#[test]
fn scaling_leaves_absent_phases_absent() {
    assert_eq!(mul_opt(Some(4), 3), Some(12));
    assert_eq!(mul_opt(None::<i32>, 3), None);
    assert_eq!(PhasesOpt(Some(2), None, Some(3)) * 5, PhasesOpt(Some(10), None, Some(15)));
    assert_eq!(
        PhasesOpt(Some(1.5f32), None, Some(-2.0f32)) * 2.0f32,
        PhasesOpt(Some(3.0f32), None, Some(-4.0f32))
    );
    assert_eq!(PhasesOpt::<f32>(None, None, None) * 2.0f32, PhasesOpt(None, None, None));
}

#[test]
fn compound_assignment_of_phases() {
    let mut phases = PhasesOpt(Some(5), None, None);
    phases += PhasesOpt(Some(3), Some(4), None);
    assert_eq!(phases, PhasesOpt(Some(8), Some(4), None));
    phases -= PhasesOpt(None, Some(1), Some(2));
    assert_eq!(phases, PhasesOpt(Some(8), Some(3), Some(-2)));
    phases *= 2;
    assert_eq!(phases, PhasesOpt(Some(16), Some(6), Some(-4)));
}

#[test]
fn default_is_three_absent_phases() {
    assert_eq!(PhasesOpt::<i32>::default(), PhasesOpt(None, None, None));
    assert_eq!(PhasesOpt::<Current>::default().count(), 0);
}

#[test]
fn phases_of_quantities() {
    let phases = PhasesOpt(
        Some(Current::with_fix1(125)),
        None,
        Some(Current::with_fix1(-30)),
    );
    assert_eq!(phases.count(), 2);
    assert_eq!(phases.sum(), Some(Current::with_fix1(95)));
    assert_eq!(phases.max(), Some(Current::with_fix1(125)));
    assert_eq!(phases.min(), Some(Current::with_fix1(-30)));
    assert_eq!(phases.sum().unwrap().to_string(), "9.5");
    let copy = phases.clone();
    assert_eq!(copy, phases);
    let doubled = phases + phases;
    assert_eq!(doubled.0, Some(Current::with_fix1(250)));
    assert_eq!(doubled.1, None);
    assert_eq!(doubled.2, Some(Current::with_fix1(-60)));
}

#[test]
fn sum_of_quantities_saturates() {
    let top = Current::with_fix1(i32::MAX);
    assert_eq!(PhasesOpt(Some(top), Some(top), Some(top)).sum(), Some(top));
    assert_eq!(PhasesOpt(Some(top), None, Some(top)).sum(), Some(top));
}
