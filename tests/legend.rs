use mixed_point::integral::{LowerBoundedRep, Natural};
use mixed_point::legend::{PhaseLegend, PhaseWithLegend};

fn natural(x: i64) -> Natural {
    Natural::at_least(x)
}

#[test]
fn name_empty_phase() {
    let phase: [Natural; 0] = [];
    let legend = PhaseLegend::new([]);
    let expected: [(&str, Natural); 0] = [];
    assert_eq!(expected, legend.name(phase));
}

#[test]
fn name_phase() {
    let phase = [natural(1), natural(2), natural(3)];
    let legend = PhaseLegend::new(["a", "b", "c"]);
    assert_eq!([("a", natural(1)), ("b", natural(2)), ("c", natural(3))], legend.name(phase));
}

#[test]
fn phase_with_legend_keeps_its_parts() {
    let legend = PhaseLegend::new(["a", "b"]);
    let labelled = PhaseWithLegend::new([natural(4), natural(5)], &legend, "Label");
    assert_eq!([natural(4), natural(5)], labelled.phase);
    assert_eq!("Label", labelled.label);
    assert_eq!(&legend, labelled.legend);
}
