use internal_table::name::{
    compose_internal_table_name, generate_internal_table_name_with_type,
    INTERNAL_TABLE_NAME_PREFIX, RW_TABLE_FUNCTION_NAME,
};

#[test]
fn generates_name_of_aggregation_table() {
    assert_eq!(
        generate_internal_table_name_with_type("orders_mv", 3, 17, "AGG"),
        "__internal_orders_mv_3_agg_17"
    );
}

#[test]
fn generates_name_from_empty_parts() {
    assert_eq!(
        generate_internal_table_name_with_type("", 0, 0, ""),
        "__internal__0__0"
    );
}

#[test]
fn generated_name_starts_with_prefix_and_mview() {
    let name = generate_internal_table_name_with_type("mv_1", 42, 7, "HashJoinLeft");
    assert!(name.starts_with("__internal_mv_1"));
    assert!(name.starts_with(INTERNAL_TABLE_NAME_PREFIX));
    assert_eq!(name, "__internal_mv_1_42_hashjoinleft_7");
}

#[test]
fn type_tag_case_does_not_matter() {
    for (mview, fragment_id, table_id) in [("m", 0u32, 0u32), ("orders_mv", 3, 17), ("", 9, 10)] {
        assert_eq!(
            generate_internal_table_name_with_type(mview, fragment_id, table_id, "Agg"),
            generate_internal_table_name_with_type(mview, fragment_id, table_id, "agg")
        );
    }
}

#[test]
fn type_tag_is_lowercased_beyond_ascii() {
    assert_eq!(
        generate_internal_table_name_with_type("mv", 1, 2, "ÄGG"),
        "__internal_mv_1_ägg_2"
    );
}

#[test]
fn generation_is_repeatable() {
    let first = generate_internal_table_name_with_type("orders_mv", 3, 17, "AGG");
    let second = generate_internal_table_name_with_type("orders_mv", 3, 17, "AGG");
    assert_eq!(first.as_bytes(), second.as_bytes());
}

#[test]
fn largest_ids_are_written_in_full() {
    assert_eq!(
        generate_internal_table_name_with_type("mv", u32::MAX, u32::MAX, "t"),
        "__internal_mv_4294967295_t_4294967295"
    );
}

#[test]
fn composing_keeps_the_type_tag_as_given() {
    assert_eq!(
        compose_internal_table_name("orders_mv", 3, 17, "AGG"),
        "__internal_orders_mv_3_AGG_17"
    );
}

#[test]
fn parts_are_not_escaped() {
    assert_eq!(
        generate_internal_table_name_with_type("a_1", 2, 3, "B_4"),
        "__internal_a_1_2_b_4_3"
    );
}

#[test]
fn different_ids_give_different_names() {
    let ids = [0u32, 1, 9, 10, 11, 101, 110, u32::MAX];
    let mut names = Vec::new();
    for fragment_id in ids {
        for table_id in ids {
            names.push(generate_internal_table_name_with_type("mv_1", fragment_id, table_id, "1_1"));
        }
    }
    for (i, first) in names.iter().enumerate() {
        for second in &names[i + 1..] {
            assert_ne!(first, second);
        }
    }
}

#[test]
fn crate_root_offers_the_same_items() {
    assert_eq!(
        internal_table::generate_internal_table_name_with_type("orders_mv", 3, 17, "AGG"),
        "__internal_orders_mv_3_agg_17"
    );
    assert!(internal_table::valid_table_name("orders_mv"));
    assert_eq!(internal_table::RW_TABLE_FUNCTION_NAME, "rw_table");
}

#[test]
fn table_function_name_is_fixed() {
    assert_eq!(RW_TABLE_FUNCTION_NAME, "rw_table");
}
