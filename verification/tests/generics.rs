use fromit::error::ErrorKind;
use fromit::generics::{conjoin, get_final_generics, splice};
use fromit::structure::Bound;

fn squash(text: &str) -> String {
    text.chars().filter(|c| !c.is_whitespace()).collect()
}

#[test]
fn inheriting_appends_the_extra_parameters() {
    let bound = Bound { inherit: true, extra: Some("T: Clone, C: Copy".to_string()) };
    let g = get_final_generics(Some(&bound), "<H: Hash, O>", None).unwrap();
    assert_eq!(squash(&g.final_struct_generics), "<H:Hash,O,T:Clone,C:Copy>");
    assert_eq!(squash(&g.impl_generics), "<H:Hash,O,T:Clone,C:Copy>");
    assert_eq!(squash(&g.ty_generics), "<H,O,T,C>");
    assert_eq!(squash(&g.final_impl_generics), "<H:Hash,O,T:Clone,C:Copy>");
    assert_eq!(squash(&g.src_impl_generics), "<H:Hash,O>");
    assert_eq!(squash(&g.src_ty_generics), "<H,O>");
}

#[test]
fn replacing_keeps_only_the_extra_parameters() {
    let bound = Bound { inherit: false, extra: Some("T: Clone".to_string()) };
    let g = get_final_generics(Some(&bound), "<H: Hash, O>", None).unwrap();
    assert_eq!(squash(&g.final_struct_generics), "<T:Clone>");
    assert_eq!(squash(&g.ty_generics), "<T>");
    assert_eq!(squash(&g.final_impl_generics), "<H:Hash,O,T:Clone>");
    assert_eq!(squash(&g.final_ty_generics), "<T>");
}

#[test]
fn without_a_bound_the_original_parameters_are_reused() {
    let g = get_final_generics(None, "<H: Hash, O>", Some("where O: Eq".to_string())).unwrap();
    assert_eq!(squash(&g.final_struct_generics), "<H:Hash,O>");
    assert_eq!(squash(&g.ty_generics), "<H,O>");
    assert_eq!(squash(&g.final_impl_generics), "<H:Hash,O>");
    assert_eq!(g.where_clause.as_deref(), Some("where O: Eq"));
    assert_eq!(g.final_where_clause.as_deref(), Some("where O: Eq"));
}

#[test]
fn without_generics_and_without_a_bound_every_slot_is_empty() {
    let g = get_final_generics(None, "", None).unwrap();
    assert_eq!(g.src_impl_generics, "");
    assert_eq!(g.src_ty_generics, "");
    assert_eq!(g.impl_generics, "");
    assert_eq!(g.ty_generics, "");
    assert_eq!(g.final_impl_generics, "");
    assert_eq!(g.final_ty_generics, "");
    assert_eq!(g.final_struct_generics, "");
    assert_eq!(g.where_clause, None);
    assert_eq!(g.final_where_clause, None);
}

#[test]
fn inheriting_without_extra_parameters_keeps_the_original_ones() {
    let bound = Bound { inherit: true, extra: None };
    let g = get_final_generics(Some(&bound), "<H: Hash, O>", None).unwrap();
    assert_eq!(squash(&g.final_struct_generics), "<H:Hash,O>");
    assert_eq!(squash(&g.ty_generics), "<H,O>");
}

#[test]
fn inheriting_into_a_type_without_parameters_gives_the_extra_ones() {
    let bound = Bound { inherit: true, extra: Some("T: Clone".to_string()) };
    let g = get_final_generics(Some(&bound), "", None).unwrap();
    assert_eq!(squash(&g.final_struct_generics), "<T:Clone>");
    assert_eq!(squash(&g.final_impl_generics), "<T:Clone>");
    assert_eq!(g.src_impl_generics, "");
}

#[test]
fn replacing_with_nothing_leaves_the_conversion_the_original_parameters() {
    let bound = Bound { inherit: false, extra: None };
    let g = get_final_generics(Some(&bound), "<H: Hash, O>", None).unwrap();
    assert_eq!(g.final_struct_generics, "");
    assert_eq!(g.ty_generics, "");
    assert_eq!(squash(&g.final_impl_generics), "<H:Hash,O>");
}

#[test]
fn defaults_are_dropped_behind_impl() {
    let g = get_final_generics(None, "<T = u8>", None).unwrap();
    assert_eq!(squash(&g.src_impl_generics), "<T>");
    assert_eq!(squash(&g.src_ty_generics), "<T>");
}

#[test]
fn malformed_extra_parameters_are_a_syntax_error() {
    let bound = Bound { inherit: true, extra: Some("T: ".to_string() + "<") };
    let err = get_final_generics(Some(&bound), "<H>", None).unwrap_err();
    assert_eq!(err.len(), 1);
    assert!(matches!(err[0].kind, ErrorKind::Syntax(_)));
}

#[test]
fn splice_writes_two_lists_as_one() {
    assert_eq!(splice("<A, B>", "<C>"), "<A, B,C>");
    assert_eq!(splice(" < A , > ", " <C> "), "< A ,C>");
    assert_eq!(splice("<A>", "C>"), "<A,C>");
    assert_eq!(splice("<Vec<u8>>", "<C>"), "<Vec<u8>,C>");
}

#[test]
fn conjoin_takes_whichever_clause_is_there() {
    assert_eq!(conjoin(None, None), None);
    assert_eq!(conjoin(Some("where A: B".to_string()), None).as_deref(), Some("where A: B"));
    assert_eq!(conjoin(None, Some("where C: D".to_string())).as_deref(), Some("where C: D"));
    assert_eq!(
        conjoin(Some("where A: B".to_string()), Some("where C: D".to_string())).as_deref(),
        Some("where A: B +  C: D")
    );
}
