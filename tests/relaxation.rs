use conduction::classes::CalculateTemperature;
use conduction::conditions::{fixed_temperature, BoundaryCondition, SetupConditions};
use conduction::formula::{Balance, Direction, Information, NodeUpdate};
use conduction::grid::{classify, side_of, NodeClass, NodeKind, Side};
use conduction::norm::{max_temp, min_temp, InfinityNorm, L1Norm, L2Norm};
use conduction::solver::{ConfigError, ErrorData, ErrorType, Relaxation};
use conduction::sweep::{information, sweep, sweep_in_order};

/// Evaluates a balance in floating point, the way a caller of the library does.
fn evaluate(b: Balance<f64>, k: f64, q_dot: f64, del: f64) -> f64 {
    let c = b.class;
    let info = b.info;
    let w = |d: Direction| c.weight(d) as f64 / 4.0;
    let mut num = w(Direction::IBack) * info.i_back
        + w(Direction::IFront) * info.i_front
        + w(Direction::JBack) * info.j_back
        + w(Direction::JFront) * info.j_front
        + w(Direction::KBack) * info.k_back
        + w(Direction::KFront) * info.k_front;
    num += c.generation() as f64 / 8.0 * q_dot * del * del / k;
    let mut den = c.stencil() as f64 / 4.0;
    let faces = [
        (b.x_condition, Direction::IBack),
        (b.y_condition, Direction::JBack),
        (b.z_condition, Direction::KBack),
    ];
    for (cond, dir) in faces {
        if let Some(cond) = cond {
            let area = c.boundary_area(dir) as f64 / 4.0 * del * del;
            match cond {
                BoundaryCondition::HeatFlux { heat_flux } => num += area * heat_flux / (k * del),
                BoundaryCondition::Convection { h, t_inf } => {
                    num += area * h * t_inf / (k * del);
                    den += area * h / (k * del);
                }
                BoundaryCondition::Temperature { .. } => panic!("fixed temperatures never reach a balance"),
            }
        }
    }
    num / den
}

fn infinity(prev: &Vec<f64>, cur: &Vec<f64>) -> f64 {
    InfinityNorm.calculate_error(prev, cur, &|a: f64, b: f64| (a - b).abs())
}

fn uniform_info(t: f64) -> Information<f64> {
    Information { i_front: t, i_back: t, j_front: t, j_back: t, k_front: t, k_back: t }
}

fn mixed_setup() -> SetupConditions<f64> {
    SetupConditions {
        right_boundary: BoundaryCondition::Convection { h: 10.0, t_inf: 298.0 },
        left_boundary: BoundaryCondition::HeatFlux { heat_flux: 50.0 },
        top_boundary: BoundaryCondition::Temperature { temperature: 350.0 },
        bot_boundary: BoundaryCondition::Convection { h: 25.0, t_inf: 280.0 },
        front_boundary: BoundaryCondition::HeatFlux { heat_flux: -20.0 },
        back_boundary: BoundaryCondition::Convection { h: 5.0, t_inf: 310.0 },
    }
}

fn mixed_field(n: usize) -> Vec<f64> {
    (0..n * n * n).map(|i| 273.0 + ((i * 37) % 101) as f64 * 0.25).collect()
}

#[test]
fn sides_of_coordinates() {
    assert_eq!(side_of(0, 5), Side::Low);
    assert_eq!(side_of(4, 5), Side::High);
    assert_eq!(side_of(2, 5), Side::Middle);
    assert_eq!(side_of(0, 2), Side::Low);
    assert_eq!(side_of(1, 2), Side::High);
}

#[test]
fn classify_every_kind() {
    let c = classify(0, 0, 0, 4);
    assert_eq!(c, NodeClass { x: Side::Low, y: Side::Low, z: Side::Low });
    assert_eq!(c.kind(), NodeKind::Corner);
    assert_eq!(classify(3, 3, 1, 4).kind(), NodeKind::Edge);
    assert_eq!(classify(1, 3, 2, 4).kind(), NodeKind::Face);
    assert_eq!(classify(1, 2, 2, 4).kind(), NodeKind::Interior);
}

#[test]
fn classes_partition_grid() {
    for n in 2..6usize {
        let mut counts = [0usize; 4];
        let mut seen = std::collections::HashSet::new();
        for x in 0..n {
            for y in 0..n {
                for z in 0..n {
                    let c = classify(x, y, z, n);
                    seen.insert((c.x as u8, c.y as u8, c.z as u8));
                    let k = match c.kind() {
                        NodeKind::Interior => 0,
                        NodeKind::Face => 1,
                        NodeKind::Edge => 2,
                        NodeKind::Corner => 3,
                    };
                    counts[k] += 1;
                }
            }
        }
        let m = n - 2;
        assert_eq!(counts, [m * m * m, 6 * m * m, 12 * m, 8]);
        assert_eq!(seen.len(), if n == 2 { 8 } else { 27 });
    }
}

#[test]
fn stencil_weights_by_kind() {
    let interior = NodeClass { x: Side::Middle, y: Side::Middle, z: Side::Middle };
    assert_eq!(interior.stencil(), 24);
    assert_eq!(interior.generation(), 8);
    assert_eq!(interior.weight(Direction::KFront), 4);
    let top = NodeClass { x: Side::Middle, y: Side::High, z: Side::Middle };
    assert_eq!(top.weight(Direction::JFront), 0);
    assert_eq!(top.weight(Direction::JBack), 4);
    assert_eq!(top.weight(Direction::IBack), 2);
    assert_eq!(top.stencil(), 12);
    assert_eq!(top.generation(), 4);
    assert_eq!(top.boundary_area(Direction::JFront), 4);
    let edge = NodeClass { x: Side::High, y: Side::High, z: Side::Middle };
    assert_eq!(edge.weight(Direction::KBack), 1);
    assert_eq!(edge.weight(Direction::IBack), 2);
    assert_eq!(edge.stencil(), 6);
    assert_eq!(edge.generation(), 2);
    assert_eq!(edge.boundary_area(Direction::IFront), 2);
    let corner = NodeClass { x: Side::Low, y: Side::High, z: Side::Low };
    assert_eq!(corner.stencil(), 3);
    assert_eq!(corner.generation(), 1);
    assert_eq!(corner.boundary_area(Direction::KBack), 1);
    assert_eq!(corner.weight(Direction::IBack), 0);
    assert_eq!(corner.weight(Direction::IFront), 1);
}

#[test]
fn first_dirichlet_wins() {
    let a = Some(BoundaryCondition::Temperature { temperature: 1.0 });
    let b = Some(BoundaryCondition::Temperature { temperature: 2.0 });
    let f = Some(BoundaryCondition::HeatFlux { heat_flux: 3.0 });
    assert_eq!(fixed_temperature(&a, &b, &None), Some(1.0));
    assert_eq!(fixed_temperature(&f, &b, &a), Some(2.0));
    assert_eq!(fixed_temperature(&f, &None, &a), Some(1.0));
    assert_eq!(fixed_temperature::<f64>(&f, &None, &None), None);
    assert_eq!(BoundaryCondition::Temperature { temperature: 4.0 }.constant_temperature(), Some(4.0));
    assert_eq!(BoundaryCondition::Convection { h: 1.0, t_inf: 4.0 }.constant_temperature(), None);
}

#[test]
fn boundary_rules_dispatch() {
    let bcs = mixed_setup().make_boundaries();
    let info = uniform_info(300.0);
    // Any node on the top face is held at 350.
    match bcs.calculate(NodeClass { x: Side::High, y: Side::High, z: Side::Low }, info) {
        NodeUpdate::Fixed(t) => assert_eq!(t, 350.0),
        NodeUpdate::Balance(_) => panic!("expected a fixed temperature"),
    }
    match bcs.calculate(NodeClass { x: Side::High, y: Side::Middle, z: Side::Low }, info) {
        NodeUpdate::Balance(b) => {
            assert!(matches!(b.x_condition, Some(BoundaryCondition::Convection { h, .. }) if h == 10.0));
            assert!(b.y_condition.is_none());
            assert!(matches!(b.z_condition, Some(BoundaryCondition::Convection { h, .. }) if h == 5.0));
        }
        NodeUpdate::Fixed(_) => panic!("expected a balance"),
    }
    match bcs.corners.left_bot_front.calculate_temperature(info) {
        NodeUpdate::Balance(b) => {
            assert_eq!(b.class, NodeClass { x: Side::Low, y: Side::Low, z: Side::High });
            assert!(matches!(b.x_condition, Some(BoundaryCondition::HeatFlux { heat_flux }) if heat_flux == 50.0));
        }
        NodeUpdate::Fixed(_) => panic!("expected a balance"),
    }
}

#[test]
fn interior_formula_value() {
    let b = Balance {
        class: NodeClass { x: Side::Middle, y: Side::Middle, z: Side::Middle },
        info: Information { i_front: 1.0, i_back: 2.0, j_front: 3.0, j_back: 4.0, k_front: 5.0, k_back: 9.0 },
        x_condition: None,
        y_condition: None,
        z_condition: None,
    };
    assert_eq!(evaluate(b, 2.0, 0.0, 0.5), 4.0);
    // q_dot * del^2 / k = 12 * 0.25 / 1 = 3 adds 3/6.
    assert_eq!(evaluate(b, 1.0, 12.0, 0.5), 4.5);
}

#[test]
fn face_formula_value() {
    // Top face with convection: tangential neighbours count half, the one below whole.
    let b = Balance {
        class: NodeClass { x: Side::Middle, y: Side::High, z: Side::Middle },
        info: Information { i_front: 4.0, i_back: 4.0, j_front: 0.0, j_back: 10.0, k_front: 4.0, k_back: 4.0 },
        x_condition: None,
        y_condition: Some(BoundaryCondition::Convection { h: 2.0, t_inf: 20.0 }),
        z_condition: None,
    };
    // area = del^2 = 1, k = 1, del = 1: lhs = 2 * 20 = 40, rhs = 2.
    // (16/2 + 10 + 40) / (3 + 2) = 58 / 5
    assert_eq!(evaluate(b, 1.0, 0.0, 1.0), 58.0 / 5.0);
}

#[test]
fn edge_formula_value() {
    // Right-top edge, Neumann on the right, convection on top.
    let b = Balance {
        class: NodeClass { x: Side::High, y: Side::High, z: Side::Middle },
        info: Information { i_front: 0.0, i_back: 8.0, j_front: 0.0, j_back: 4.0, k_front: 2.0, k_back: 6.0 },
        x_condition: Some(BoundaryCondition::HeatFlux { heat_flux: 3.0 }),
        y_condition: Some(BoundaryCondition::Convection { h: 1.0, t_inf: 10.0 }),
        z_condition: None,
    };
    // k = 1, del = 2, q_dot = 4: area = del^2 / 2 = 2.
    // neighbours: (8 + 4) / 2 + (2 + 6) / 4 = 8; generation: 4 * 4 / 4 = 4;
    // flux: 2 * 3 / 2 = 3; convection: 2 * 10 / 2 = 10 over 2 * 1 / 2 = 1.
    // (8 + 4 + 3 + 10) / (3/2 + 1) = 25 / 2.5
    assert_eq!(evaluate(b, 1.0, 4.0, 2.0), 10.0);
}

#[test]
fn corner_formula_value() {
    // Left-bottom-back corner with convection on all three faces.
    let b = Balance {
        class: NodeClass { x: Side::Low, y: Side::Low, z: Side::Low },
        info: Information { i_front: 4.0, i_back: 0.0, j_front: 8.0, j_back: 0.0, k_front: 12.0, k_back: 0.0 },
        x_condition: Some(BoundaryCondition::Convection { h: 4.0, t_inf: 1.0 }),
        y_condition: Some(BoundaryCondition::Convection { h: 4.0, t_inf: 2.0 }),
        z_condition: Some(BoundaryCondition::Convection { h: 4.0, t_inf: 3.0 }),
    };
    // k = 1, del = 1, q_dot = 8: area = 1/4; each convection: h * area = 1.
    // (24/4 + 8/8 + 1 + 2 + 3) / (3/4 + 3) = 13 / 3.75
    assert_eq!(evaluate(b, 1.0, 8.0, 1.0), 13.0 / 3.75);
}

#[test]
fn interior_symmetry_under_swaps() {
    let class = NodeClass { x: Side::Middle, y: Side::Middle, z: Side::Middle };
    let info = Information { i_front: 301.5, i_back: 299.25, j_front: 280.0, j_back: 310.0, k_front: 290.0, k_back: 305.0 };
    let base = Balance { class, info, x_condition: None, y_condition: None, z_condition: None };
    let mut swapped = base;
    swapped.info.i_front = info.i_back;
    swapped.info.i_back = info.i_front;
    assert_eq!(evaluate(base, 43.0, 0.0, 0.005), evaluate(swapped, 43.0, 0.0, 0.005));
    let mut swapped = base;
    swapped.info.k_front = info.k_back;
    swapped.info.k_back = info.k_front;
    assert_eq!(evaluate(base, 43.0, 0.0, 0.005), evaluate(swapped, 43.0, 0.0, 0.005));
}

#[test]
fn neighbours_outside_read_as_zero() {
    let n = 3;
    let prev: Vec<f64> = (0..27).map(|i| i as f64).collect();
    // (0, 1, 2) is stored at 0*9 + 1*3 + 2 = 5.
    let info = information(&prev, n, 5, 0, 1, 2, 0.0);
    assert_eq!(info.i_back, 0.0);
    assert_eq!(info.i_front, 14.0);
    assert_eq!(info.j_back, 2.0);
    assert_eq!(info.j_front, 8.0);
    assert_eq!(info.k_back, 4.0);
    assert_eq!(info.k_front, 0.0);
}

#[test]
fn sweep_order_does_not_matter() {
    let n = 4;
    let bcs = mixed_setup().make_boundaries();
    let prev = mixed_field(n);
    let f = |b: Balance<f64>| evaluate(b, 43.0, 1000.0, 0.125);
    let forward = sweep(&bcs, &prev, n, 0.0, &f);
    let reversed: Vec<usize> = (0..n * n * n).rev().collect();
    let strided: Vec<usize> = (0..n * n * n).map(|i| (i * 5) % 64).collect();
    let a = sweep_in_order(&bcs, &prev, n, 0.0, &f, &reversed);
    let b = sweep_in_order(&bcs, &prev, n, 0.0, &f, &strided);
    assert_eq!(forward.len(), 64);
    for i in 0..64 {
        assert_eq!(forward[i].to_bits(), a[i].to_bits());
        assert_eq!(forward[i].to_bits(), b[i].to_bits());
    }
    // The top face (y = 3) is fixed at 350.
    assert_eq!(forward[1 * 16 + 3 * 4 + 2], 350.0);
}

#[test]
fn dirichlet_at_300_converges_in_one_sweep() {
    let n = 3;
    let setup = SetupConditions::uniform(BoundaryCondition::Temperature { temperature: 300.0 });
    let bcs = setup.make_boundaries();
    let mut run = Relaxation::new(n, 300.0, 1, ErrorType::InfinityNorm).unwrap();
    let f = |b: Balance<f64>| evaluate(b, 43.0, 0.0, 0.25);
    let current = run.sweep(&bcs, 0.0, &f);
    assert!(current.iter().all(|&t| t == 300.0));
    let error = infinity(&run.previous, &current);
    assert_eq!(error, 0.0);
    assert!(run.complete_sweep(current, error, error < 1e-7));
    let result = run.into_result();
    assert_eq!(result.error_decay.data, vec![0.0]);
    assert_eq!(result.step_data.len(), 1);
    assert_eq!(result.step_data[0].step, 0);
    assert_eq!(result.size, 3);
}

#[test]
fn dirichlet_at_300_from_the_seed() {
    // Scenario as the driver starts it: seeded at 273, every node reaches
    // 300 in the first sweep; the next sweep changes nothing and converges.
    let n = 3;
    let setup = SetupConditions::uniform(BoundaryCondition::Temperature { temperature: 300.0 });
    let bcs = setup.make_boundaries();
    let mut run = Relaxation::new(n, 273.0, 1, ErrorType::InfinityNorm).unwrap();
    let f = |b: Balance<f64>| evaluate(b, 1.0, 0.0, 1.0);
    let first = run.sweep(&bcs, 0.0, &f);
    // Only the single interior node reads the seed: its neighbours are all faces.
    assert_eq!(first[13], 273.0);
    assert!(first.iter().enumerate().all(|(i, &t)| i == 13 || t == 300.0));
    let e1 = infinity(&run.previous, &first);
    assert_eq!(e1, 27.0);
    assert!(!run.complete_sweep(first, e1, e1 < 1e-7));
    let second = run.sweep(&bcs, 0.0, &f);
    assert!(second.iter().all(|&t| t == 300.0));
    let e2 = infinity(&run.previous, &second);
    assert_eq!(e2, 27.0);
    assert!(!run.complete_sweep(second, e2, e2 < 1e-7));
    let third = run.sweep(&bcs, 0.0, &f);
    let e3 = infinity(&run.previous, &third);
    assert_eq!(e3, 0.0);
    assert!(run.complete_sweep(third, e3, e3 < 1e-7));
    assert_eq!(run.step, 2);
    assert_eq!(run.error_decay.data, vec![27.0, 27.0, 0.0]);
}

#[test]
fn insulated_cube_stays_at_seed() {
    let n = 2;
    let setup = SetupConditions::uniform(BoundaryCondition::HeatFlux { heat_flux: 0.0 });
    let bcs = setup.make_boundaries();
    let mut run = Relaxation::new(n, 273.0, 1, ErrorType::L2Norm).unwrap();
    let f = |b: Balance<f64>| evaluate(b, 43.0, 0.0, 0.25);
    for _ in 0..3 {
        let current = run.sweep(&bcs, 0.0, &f);
        assert!(current.iter().all(|&t| t == 273.0));
        let error = infinity(&run.previous, &current);
        assert_eq!(error, 0.0);
        if run.complete_sweep(current, error, error < 1e-7) {
            break;
        }
    }
    assert!(run.converged);
    assert_eq!(run.step, 0);
    assert_eq!(run.error_decay.error_type, ErrorType::L2Norm);
}

#[test]
fn snapshots_every_interval() {
    let n = 2;
    let setup = SetupConditions::uniform(BoundaryCondition::Convection { h: 10.0, t_inf: 298.0 });
    let bcs = setup.make_boundaries();
    let mut run = Relaxation::new(n, 273.0, 2, ErrorType::InfinityNorm).unwrap();
    let f = |b: Balance<f64>| evaluate(b, 43.0, 0.0, 0.25);
    for _ in 0..5 {
        let current = run.sweep(&bcs, 0.0, &f);
        let error = infinity(&run.previous, &current);
        assert!(error > 0.0);
        assert!(!run.complete_sweep(current, error, false));
    }
    assert_eq!(run.step, 5);
    assert_eq!(run.error_decay.data.len(), 5);
    let steps: Vec<usize> = run.step_data.iter().map(|s| s.step).collect();
    assert_eq!(steps, vec![0, 2, 4]);
    // Convection towards 298 warms the cube.
    assert!(run.previous.iter().all(|&t| t > 273.0 && t < 298.0));
}

#[test]
fn configuration_errors() {
    assert_eq!(Relaxation::new(1, 0.0f64, 1, ErrorType::L1Norm).unwrap_err(), ConfigError::TooFewDivisions);
    assert_eq!(Relaxation::new(0, 0.0f64, 1, ErrorType::L1Norm).unwrap_err(), ConfigError::TooFewDivisions);
    assert_eq!(Relaxation::new(usize::MAX / 2, 0.0f64, 1, ErrorType::L1Norm).unwrap_err(), ConfigError::TooManyNodes);
    assert_eq!(Relaxation::new(3, 0.0f64, 0, ErrorType::L1Norm).unwrap_err(), ConfigError::NoRecordingInterval);
    let run = Relaxation::new(3, 5.0f64, 7, ErrorType::L1Norm).unwrap();
    assert_eq!(run.previous, vec![5.0; 27]);
    assert_eq!(run.steps_before_recording, 7);
    assert!(!run.converged);
}

#[test]
fn infinity_norm_identical_and_single_change() {
    let a = mixed_field(3);
    assert_eq!(infinity(&a, &a), 0.0);
    let mut b = a.clone();
    b[11] -= 2.5;
    assert_eq!(infinity(&a, &b), 2.5);
    b[11] += 5.0;
    assert_eq!(infinity(&a, &b), 2.5);
}

#[test]
fn extremes_of_a_field() {
    let v = vec![3.0, -1.5, 7.25, 7.25, 0.0];
    assert_eq!(max_temp(&v), 7.25);
    assert_eq!(min_temp(&v), -1.5);
    assert_eq!(max_temp(&vec![4u32]), 4);
    assert_eq!(min_temp(&vec![9i64, 2, 5]), 2);
}

#[test]
fn norm_tags() {
    assert_eq!(InfinityNorm.to_error_type(), ErrorType::InfinityNorm);
    assert_eq!(L1Norm.to_error_type(), ErrorType::L1Norm);
    assert_eq!(L2Norm.to_error_type(), ErrorType::L2Norm);
    let mut e = ErrorData { error_type: ErrorType::L1Norm, data: vec![1.0] };
    e.add_error(0.5);
    assert_eq!(e.data, vec![1.0, 0.5]);
}
