use outlines::rim_effect::RimEffect;

#[test]
fn the_rim_shader_has_one_fixed_id() {
    assert_eq!(RimEffect::shader_id(), 42572727525244273574u128);
}

#[test]
fn every_call_names_the_same_shader() {
    assert_eq!(RimEffect::shader_id(), RimEffect::shader_id());
}
