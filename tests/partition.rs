use rand::seq::SliceRandom;
use rand_distr::{Distribution, Normal};
use rpwgen::partition::{clamp_draw, decide_num_of_extructs, GenError};

// A draw around `mean` from a normal distribution of variance 2, truncated
// to an integer as the command-line tool does.
fn normal_draw(mean: usize) -> usize {
    let mut rng = rand::thread_rng();
    let normal = Normal::new(mean as f64, 2.0_f64.sqrt()).unwrap();
    normal.sample(&mut rng) as usize
}

#[test]
fn test_decide_num_of_extructs() {
    let mut rng = rand::thread_rng();
    let truth_val = vec![true, false];

    for _ in 0..1000 {
        let mut lc = *truth_val.choose(&mut rng).unwrap();
        let mut uc = *truth_val.choose(&mut rng).unwrap();
        let mut di = *truth_val.choose(&mut rng).unwrap();
        let mut sy = *truth_val.choose(&mut rng).unwrap();

        if lc && uc && di && sy {
            let args = vec!["lc", "uc", "di", "sy"];
            match *args.choose(&mut rng).unwrap() {
                "lc" => {
                    lc = false;
                }
                "uc" => {
                    uc = false;
                }
                "di" => {
                    di = false;
                }
                "sy" => {
                    sy = false;
                }
                _ => panic!(""),
            };
        }

        let (num_lc, num_uc, num_di, num_sy) =
            decide_num_of_extructs(10, lc, uc, di, sy, &normal_draw).unwrap();

        if lc {
            assert_eq!(num_lc, 0)
        } else {
            assert_ne!(num_lc, 0)
        };

        if uc {
            assert_eq!(num_uc, 0)
        } else {
            assert_ne!(num_uc, 0)
        };

        if di {
            assert_eq!(num_di, 0)
        } else {
            assert_ne!(num_di, 0)
        };

        if sy {
            assert_eq!(num_sy, 0)
        } else {
            assert_ne!(num_sy, 0)
        };
    }
}

#[test]
fn counts_sum_to_length_for_every_class_subset() {
    for mask in 0u32..16 {
        let lc = mask & 1 != 0;
        let uc = mask & 2 != 0;
        let di = mask & 4 != 0;
        let sy = mask & 8 != 0;
        let active = [lc, uc, di, sy].iter().filter(|x| !**x).count();
        for total in 0usize..40 {
            let r = decide_num_of_extructs(total, lc, uc, di, sy, &normal_draw);
            if active == 0 {
                assert_eq!(r, Err(GenError::NoActiveClass));
            } else if total < active {
                assert_eq!(r, Err(GenError::LengthTooShort));
            } else {
                let (a, b, c, d) = r.unwrap();
                assert_eq!(a + b + c + d, total);
                for (excluded, n) in [(lc, a), (uc, b), (di, c), (sy, d)] {
                    if excluded {
                        assert_eq!(n, 0);
                    } else {
                        assert!(n >= 1);
                    }
                }
            }
        }
    }
}

#[test]
fn lowercase_and_digits_split_ten() {
    for _ in 0..200 {
        let (a, b, c, d) = decide_num_of_extructs(10, false, true, false, true, &normal_draw).unwrap();
        assert_eq!(b, 0);
        assert_eq!(d, 0);
        assert!(a >= 1 && c >= 1);
        assert_eq!(a + c, 10);
    }
}

#[test]
fn length_shorter_than_class_count_is_rejected() {
    let r = decide_num_of_extructs(3, false, false, false, false, &normal_draw);
    assert_eq!(r, Err(GenError::LengthTooShort));
}

#[test]
fn all_classes_excluded_is_rejected() {
    let r = decide_num_of_extructs(12, true, true, true, true, &normal_draw);
    assert_eq!(r, Err(GenError::NoActiveClass));
}

#[test]
fn draw_at_the_mean_gives_the_remainder_to_the_last_class() {
    let at_mean = |m: usize| m;
    let r = decide_num_of_extructs(10, false, false, false, false, &at_mean);
    assert_eq!(r, Ok((2, 2, 3, 3)));
    let r = decide_num_of_extructs(12, false, true, false, false, &at_mean);
    assert_eq!(r, Ok((4, 0, 4, 4)));
}

#[test]
fn extreme_draws_are_clamped() {
    let huge = |_m: usize| usize::MAX;
    let zero = |_m: usize| 0usize;
    assert_eq!(decide_num_of_extructs(10, false, false, false, false, &huge), Ok((7, 1, 1, 1)));
    assert_eq!(decide_num_of_extructs(10, false, false, false, false, &zero), Ok((1, 1, 1, 7)));
}

#[test]
fn single_class_takes_the_whole_length() {
    let never = |_m: usize| 99usize;
    assert_eq!(decide_num_of_extructs(12, true, true, true, false, &never), Ok((0, 0, 0, 12)));
    assert_eq!(decide_num_of_extructs(5, false, true, true, true, &never), Ok((5, 0, 0, 0)));
}

#[test]
fn clamp_draw_values() {
    assert_eq!(clamp_draw(0, 1, 7), 1);
    assert_eq!(clamp_draw(4, 1, 7), 4);
    assert_eq!(clamp_draw(9, 1, 7), 7);
    assert_eq!(clamp_draw(3, 3, 3), 3);
}
