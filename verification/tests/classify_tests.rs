use cpu_rec_rs::classify::{
    determine, predict, ArchDivergences, Divergences, KlRes, HIGH_DIV_LIMIT, OCAML_DIV_LIMIT,
};

/// Order code of a divergence value: compares as the value does, with any
/// NaN above every number. This is the transform the scanner's driver is
/// expected to apply to its computed divergences.
fn div_code(x: f32) -> u32 {
    if x.is_nan() {
        u32::MAX
    } else {
        let b = x.to_bits();
        if b & 0x8000_0000 != 0 {
            !b
        } else {
            b | 0x8000_0000
        }
    }
}

fn res(arch: &str, div: u32) -> KlRes {
    KlRes {
        arch: arch.to_string(),
        div,
    }
}

fn entry(arch: &str, bigrams: u32, trigrams: u32) -> ArchDivergences {
    ArchDivergences {
        arch: arch.to_string(),
        divs: Divergences { bigrams, trigrams },
    }
}

#[test]
fn div_code_orders_as_the_values() {
    assert!(div_code(0.0) < div_code(0.5));
    assert!(div_code(0.5) < div_code(1.0));
    assert!(div_code(1.0) < div_code(3.0));
    assert!(div_code(-1.0) < div_code(-0.5));
    assert!(div_code(-0.5) < div_code(0.25));
    assert!(div_code(3.0) < div_code(f32::INFINITY));
    assert!(div_code(f32::INFINITY) < div_code(f32::NAN));
    assert_eq!(div_code(2.0), div_code(2.0));
}

#[test]
fn override_limits_are_the_codes_of_one_and_three() {
    assert_eq!(OCAML_DIV_LIMIT, div_code(1.0));
    assert_eq!(HIGH_DIV_LIMIT, div_code(3.0));
}

#[test]
fn determine_agreement_gate() {
    // bigram best and trigram best disagree: no match, whatever the codes
    assert_eq!(determine(&res("x86", 0), &res("arm", 0)), None);
    assert_eq!(determine(&res("arm", u32::MAX), &res("x86", u32::MAX)), None);
    // agreement: the label is returned
    assert_eq!(determine(&res("x86", 12), &res("x86", 99)), Some("x86".to_string()));
}

#[test]
fn determine_sentinel_gate() {
    // a label starting with the reserved marker is never returned
    assert_eq!(determine(&res("_words", 0), &res("_words", 0)), None);
    // but the marker elsewhere in the label does not block it
    assert_eq!(
        determine(&res("my_arch", 0), &res("my_arch", 0)),
        Some("my_arch".to_string())
    );
}

#[test]
fn determine_override_gate() {
    // OCaml above a bigram divergence of one is rejected
    assert_eq!(
        determine(&res("OCaml", div_code(1.5)), &res("OCaml", 0)),
        None
    );
    // only divergences strictly above the threshold are rejected
    assert_eq!(
        determine(&res("OCaml", div_code(1.0)), &res("OCaml", 0)),
        Some("OCaml".to_string())
    );
    assert_eq!(
        determine(&res("OCaml", div_code(0.99)), &res("OCaml", 0)),
        Some("OCaml".to_string())
    );
    // IA-64 and xmox_xs2a are rejected above three
    assert_eq!(
        determine(&res("IA-64", div_code(3.25)), &res("IA-64", 0)),
        None
    );
    assert_eq!(
        determine(&res("IA-64", div_code(2.5)), &res("IA-64", 0)),
        Some("IA-64".to_string())
    );
    assert_eq!(
        determine(&res("xmox_xs2a", div_code(3.25)), &res("xmox_xs2a", 0)),
        None
    );
    assert_eq!(
        determine(&res("xmox_xs2a", div_code(2.9)), &res("xmox_xs2a", 0)),
        Some("xmox_xs2a".to_string())
    );
    // other labels are never overridden
    assert_eq!(
        determine(&res("x86", u32::MAX), &res("x86", u32::MAX)),
        Some("x86".to_string())
    );
}

#[test]
fn predict_picks_the_best_of_each_ranking() {
    // arm wins both rankings
    let v = vec![
        entry("x86", 30, 30),
        entry("arm", 10, 10),
        entry("mips", 20, 20),
    ];
    assert_eq!(predict(&v), Some("arm".to_string()));

    // arm wins bigrams, mips wins trigrams: disagreement, no match
    let v = vec![
        entry("x86", 30, 30),
        entry("arm", 10, 20),
        entry("mips", 20, 10),
    ];
    assert_eq!(predict(&v), None);
}

#[test]
fn predict_breaks_ties_by_insertion_order() {
    // equal best codes: the earliest reference wins both rankings
    let v = vec![entry("x86", 10, 10), entry("arm", 10, 10)];
    assert_eq!(predict(&v), Some("x86".to_string()));
}

#[test]
fn predict_single_reference() {
    let v = vec![entry("avr", 1, 2)];
    assert_eq!(predict(&v), Some("avr".to_string()));
    let v = vec![entry("_junk", 1, 2)];
    assert_eq!(predict(&v), None);
}
