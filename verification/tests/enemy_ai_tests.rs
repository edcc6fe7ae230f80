use churrera_studio::enemy_ai::EnemyAiType;

const ALL: [EnemyAiType; 15] = [
    EnemyAiType::EmptyOrDisabled,
    EnemyAiType::LinearHorizontalLeft,
    EnemyAiType::LinearHorizontalRight,
    EnemyAiType::LinearVertical,
    EnemyAiType::PlatformOrPursuer,
    EnemyAiType::GhostRandomRespawn,
    EnemyAiType::GhostFantyHoming,
    EnemyAiType::QuadratorUp,
    EnemyAiType::QuadratorRight,
    EnemyAiType::QuadratorDown,
    EnemyAiType::QuadratorLeftOrLift,
    EnemyAiType::MarrulerRight,
    EnemyAiType::MarrulerLeft,
    EnemyAiType::MarrulerUp,
    EnemyAiType::MarrulerDown,
];

#[test]
fn codes_follow_declaration_order() {
    for (i, t) in ALL.iter().enumerate() {
        assert_eq!(t.to_u8(), i as u8);
        assert_eq!(EnemyAiType::from_u8(i as u8), *t);
    }
}

#[test]
fn unknown_bytes_read_as_empty_slot() {
    assert_eq!(EnemyAiType::from_u8(0), EnemyAiType::EmptyOrDisabled);
    assert_eq!(EnemyAiType::from_u8(15), EnemyAiType::EmptyOrDisabled);
    assert_eq!(EnemyAiType::from_u8(255), EnemyAiType::EmptyOrDisabled);
    assert_eq!(EnemyAiType::default(), EnemyAiType::EmptyOrDisabled);
}

#[test]
fn byte_round_trip() {
    for v in 0u8..=255 {
        let back = EnemyAiType::from_u8(v).to_u8();
        if (1..=14).contains(&v) {
            assert_eq!(back, v);
        } else {
            assert_eq!(back, 0);
        }
    }
}

#[test]
fn categories_partition_the_live_types() {
    for t in ALL.iter() {
        let n = [t.is_linear(), t.is_quadrator(), t.is_marruler(), t.is_ghost()].iter().filter(|b| **b).count();
        if *t == EnemyAiType::EmptyOrDisabled {
            assert_eq!(n, 0);
        } else {
            assert_eq!(n, 1);
        }
    }
    assert!(EnemyAiType::PlatformOrPursuer.is_linear());
    assert!(EnemyAiType::GhostFantyHoming.is_ghost());
    assert!(EnemyAiType::QuadratorLeftOrLift.is_quadrator());
    assert!(EnemyAiType::MarrulerDown.is_marruler());
}

#[test]
fn names_depend_on_genre() {
    assert_eq!(EnemyAiType::PlatformOrPursuer.to_ru_name(false), "0x04: 🧗 ДВИЖУЩАЯСЯ ПЛАТФОРМА (Лифт)");
    assert_eq!(EnemyAiType::PlatformOrPursuer.to_ru_name(true), "0x04: 🎯 АКТИВНЫЙ ОХОТНИК (Погоня по X/Y)");
    assert_eq!(EnemyAiType::EmptyOrDisabled.to_ru_name(true), "Пустой слот (ИИ Выключен)");
    assert_eq!(EnemyAiType::MarrulerDown.to_ru_name(false), EnemyAiType::MarrulerDown.to_ru_name(true));
    assert_eq!(
        EnemyAiType::QuadratorLeftOrLift.to_ru_name(false),
        "0x0A: Пристеночник / Квадратный лифт (Старт Влево)"
    );
}

#[test]
fn descriptions_depend_on_genre() {
    assert_eq!(EnemyAiType::EmptyOrDisabled.to_ru_description(false), "Враг полностью удален из памяти данного экрана.");
    assert!(EnemyAiType::LinearVertical.to_ru_description(true).starts_with("↔️/↕️ Диагональный рикошет:"));
    assert!(EnemyAiType::LinearVertical.to_ru_description(false).starts_with("↔️/↕️ Линейные:"));
    assert!(EnemyAiType::MarrulerUp.to_ru_description(true).starts_with("🌀 Хаотичный Бродяга:"));
}

#[test]
fn display_text_is_platformer_name() {
    for t in ALL.iter() {
        assert_eq!(t.to_display_string(), t.to_ru_name(false));
    }
}
