use hisab_mimamsa::quantum_field::feynman::ParticleType;
use hisab_mimamsa::quantum_field::{FieldType, GaugeChoice};
use hisab_mimamsa::relativity::geodesic::GeodesicType;
use hisab_mimamsa::relativity::lorentz::IntervalType;
use hisab_mimamsa::relativity::metric::{MetricSignature, SpacetimeMetric};
use hisab_mimamsa::unified::fixed_point::CosmicPhase;

#[test]
fn enums_compare_by_variant() {
    assert_eq!(FieldType::Scalar, FieldType::Scalar);
    assert_ne!(FieldType::Fermion, FieldType::GaugeBoson);
    assert_eq!(GaugeChoice::Feynman, GaugeChoice::Feynman);
    assert_ne!(ParticleType::Photon, ParticleType::Scalar);
    assert_ne!(IntervalType::Timelike, IntervalType::Spacelike);
    assert_ne!(GeodesicType::Null, GeodesicType::Timelike);
    assert_ne!(MetricSignature::MostlyPlus, MetricSignature::MostlyMinus);
    assert_ne!(SpacetimeMetric::Kerr, SpacetimeMetric::FLRW);
    assert_ne!(CosmicPhase::MatterDominated, CosmicPhase::DarkEnergyDominated);
}

#[test]
fn enums_are_copy() {
    let a = SpacetimeMetric::ReissnerNordstrom;
    let b = a;
    assert_eq!(a, b);
    let p = CosmicPhase::RadiationDominated;
    let q = p;
    assert_eq!(format!("{p:?}"), format!("{q:?}"));
}
