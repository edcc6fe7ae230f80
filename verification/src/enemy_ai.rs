//! The engine's enemy AI types and their names for the editor.

use vstd::prelude::*;

verus! {

/// Enemy AI types of the engine (`enems.h` byte 1..=14; 0 is a free slot).
#[derive(Clone, Copy, Debug, PartialEq, Eq, Structural)]
pub enum EnemyAiType {
    /// Slot free: no enemy on the screen.
    EmptyOrDisabled,
    /// Type 1: horizontal linear / ricochet, starts left.
    LinearHorizontalLeft,
    /// Type 2: horizontal linear / ricochet, starts right.
    LinearHorizontalRight,
    /// Type 3: vertical linear / ricochet.
    LinearVertical,
    /// Type 4: moving platform (side view) / pursuer (top view).
    PlatformOrPursuer,
    /// Type 5: flying ghost, random respawn.
    GhostRandomRespawn,
    /// Type 6: Fanty ghost, homing on the player.
    GhostFantyHoming,
    /// Type 7: wall walker, starts up.
    QuadratorUp,
    /// Type 8: wall walker, starts right.
    QuadratorRight,
    /// Type 9: wall walker, starts down.
    QuadratorDown,
    /// Type 10: wall walker / square lift, starts left.
    QuadratorLeftOrLift,
    /// Type 11: random wanderer, starts right.
    MarrulerRight,
    /// Type 12: random wanderer, starts left.
    MarrulerLeft,
    /// Type 13: random wanderer, starts up.
    MarrulerUp,
    /// Type 14: random wanderer, starts down.
    MarrulerDown,
}

impl Default for EnemyAiType {
    fn default() -> (r: EnemyAiType)
        ensures
            r == EnemyAiType::EmptyOrDisabled,
    {
        EnemyAiType::EmptyOrDisabled
    }
}

/// The engine byte of each AI type.
pub open spec fn ai_code(t: EnemyAiType) -> u8 {
    match t {
        EnemyAiType::EmptyOrDisabled => 0,
        EnemyAiType::LinearHorizontalLeft => 1,
        EnemyAiType::LinearHorizontalRight => 2,
        EnemyAiType::LinearVertical => 3,
        EnemyAiType::PlatformOrPursuer => 4,
        EnemyAiType::GhostRandomRespawn => 5,
        EnemyAiType::GhostFantyHoming => 6,
        EnemyAiType::QuadratorUp => 7,
        EnemyAiType::QuadratorRight => 8,
        EnemyAiType::QuadratorDown => 9,
        EnemyAiType::QuadratorLeftOrLift => 10,
        EnemyAiType::MarrulerRight => 11,
        EnemyAiType::MarrulerLeft => 12,
        EnemyAiType::MarrulerUp => 13,
        EnemyAiType::MarrulerDown => 14,
    }
}

/// The AI type that an engine byte stands for: the type whose code it is,
/// and `EmptyOrDisabled` for any byte outside 1..=14.
pub open spec fn ai_of_code(value: u8) -> EnemyAiType {
    if value == 1 {
        EnemyAiType::LinearHorizontalLeft
    } else if value == 2 {
        EnemyAiType::LinearHorizontalRight
    } else if value == 3 {
        EnemyAiType::LinearVertical
    } else if value == 4 {
        EnemyAiType::PlatformOrPursuer
    } else if value == 5 {
        EnemyAiType::GhostRandomRespawn
    } else if value == 6 {
        EnemyAiType::GhostFantyHoming
    } else if value == 7 {
        EnemyAiType::QuadratorUp
    } else if value == 8 {
        EnemyAiType::QuadratorRight
    } else if value == 9 {
        EnemyAiType::QuadratorDown
    } else if value == 10 {
        EnemyAiType::QuadratorLeftOrLift
    } else if value == 11 {
        EnemyAiType::MarrulerRight
    } else if value == 12 {
        EnemyAiType::MarrulerLeft
    } else if value == 13 {
        EnemyAiType::MarrulerUp
    } else if value == 14 {
        EnemyAiType::MarrulerDown
    } else {
        EnemyAiType::EmptyOrDisabled
    }
}

/// Codes 1..=4: linear movers (including the platform / pursuer).
pub open spec fn spec_is_linear(t: EnemyAiType) -> bool {
    1 <= ai_code(t) <= 4
}

/// Codes 7..=10.
pub open spec fn spec_is_quadrator(t: EnemyAiType) -> bool {
    7 <= ai_code(t) <= 10
}

/// Codes 11..=14.
pub open spec fn spec_is_marruler(t: EnemyAiType) -> bool {
    11 <= ai_code(t) <= 14
}

/// Codes 5 and 6.
pub open spec fn spec_is_ghost(t: EnemyAiType) -> bool {
    5 <= ai_code(t) <= 6
}

/// Technical name of an AI type in the editor; some types read differently
/// in a top-down game than in a platformer.
pub open spec fn ai_name(t: EnemyAiType, is_top_down: bool) -> Seq<char> {
    match t {
        EnemyAiType::EmptyOrDisabled => "Пустой слот (ИИ Выключен)"@,
        EnemyAiType::LinearHorizontalLeft => if is_top_down { "0x01: Рикошет / Диагональный ходок (Старт Влево)"@ } else { "0x01: Линейный по горизонтали (Старт Влево)"@ },
        EnemyAiType::LinearHorizontalRight => if is_top_down { "0x02: Рикошет / Диагональный ходок (Старт Вправо)"@ } else { "0x02: Линейный по горизонтали (Старт Вправо)"@ },
        EnemyAiType::LinearVertical => if is_top_down { "0x03: Рикошет / Диагональный ходок (Старт по Y)"@ } else { "0x03: Линейный по вертикали (Вверх/Вниз)"@ },
        EnemyAiType::PlatformOrPursuer => if is_top_down { "0x04: 🎯 АКТИВНЫЙ ОХОТНИК (Погоня по X/Y)"@ } else { "0x04: 🧗 ДВИЖУЩАЯСЯ ПЛАТФОРМА (Лифт)"@ },
        EnemyAiType::GhostRandomRespawn => "0x05: Призрак-летун (Случайный спавн на экране)"@,
        EnemyAiType::GhostFantyHoming => "0x06: Призрак Fanty (Агро-преследование и возврат)"@,
        EnemyAiType::QuadratorUp => if is_top_down { "0x07: Обходчик лабиринта / Вокруг камней (Старт Вверх)"@ } else { "0x07: Пристеночник / По уступам (Старт Вверх)"@ },
        EnemyAiType::QuadratorRight => if is_top_down { "0x08: Обходчик лабиринта / Вокруг камней (Старт Вправо)"@ } else { "0x08: Пристеночник / По уступам (Старт Вправо)"@ },
        EnemyAiType::QuadratorDown => if is_top_down { "0x09: Обходчик лабиринта / Вокруг камней (Старт Вниз)"@ } else { "0x09: Пристеночник / По уступам (Старт Вниз)"@ },
        EnemyAiType::QuadratorLeftOrLift => if is_top_down { "0x0A: Обходчик лабиринта / Вокруг камней (Старт Влево)"@ } else { "0x0A: Пристеночник / Квадратный лифт (Старт Влево)"@ },
        EnemyAiType::MarrulerRight => "0x0B: Хаотичный патрульный / Бродяга (Старт Вправо)"@,
        EnemyAiType::MarrulerLeft => "0x0C: Хаотичный патрульный / Бродяга (Старт Влево)"@,
        EnemyAiType::MarrulerUp => "0x0D: Хаотичный патрульный / Бродяга (Старт Вверх)"@,
        EnemyAiType::MarrulerDown => "0x0E: Хаотичный патрульный / Бродяга (Старт Вниз)"@,
    }
}

/// Longer explanation of an AI type for the palette tooltip.
pub open spec fn ai_description(t: EnemyAiType, is_top_down: bool) -> Seq<char> {
    match t {
        EnemyAiType::EmptyOrDisabled => "Враг полностью удален из памяти данного экрана."@,
        EnemyAiType::LinearHorizontalLeft => if is_top_down { "↔️/↕️ Диагональный рикошет:\nХодит по вектору линии. При ударе о стену отскакивает под прямым углом."@ } else { "↔️/↕️ Линейные:\nХодят строго по прямой. Разворачиваются в конечной точке или при ударе о препятствие."@ },
        EnemyAiType::LinearHorizontalRight => if is_top_down { "↔️/↕️ Диагональный рикошет:\nХодит по вектору линии. При ударе о стену отскакивает под прямым углом."@ } else { "↔️/↕️ Линейные:\nХодят строго по прямой. Разворачиваются в конечной точке или при ударе о препятствие."@ },
        EnemyAiType::LinearVertical => if is_top_down { "↔️/↕️ Диагональный рикошет:\nХодит по вектору линии. При ударе о стену отскакивает под прямым углом."@ } else { "↔️/↕️ Линейные:\nХодят строго по прямой. Разворачиваются в конечной точке или при ударе о препятствие."@ },
        EnemyAiType::PlatformOrPursuer => if is_top_down { "🎯 Умный Охотник:\nКаждый кадр считывает координаты игрока и преследует его кратчайшим путем."@ } else { "🧗 Платформа-Лифт:\nСлужит твердой опорой для ног игрока. Перемещается по заданной траектории."@ },
        EnemyAiType::GhostRandomRespawn => "👻 Налётчик:\nСпавнится за пределами экрана наобум. Летит через комнату сквозь стены и исчезает."@,
        EnemyAiType::GhostFantyHoming => "👻 Базовый страж:\nСпит в точке спавна. Заметив игрока в радиусе обзора, летит сквозь стены за ним. Теряя агро, летит назад."@,
        EnemyAiType::QuadratorUp => if is_top_down { "🔄 Обходчик препятствий:\nБесконечно патрулирует внешний периметр прямоугольника вокруг внутренних блоков стен."@ } else { "🔄 Пристеночник-паук:\nПолзает по границам очерченной коробки, удерживаясь за стены, уступы или потолок."@ },
        EnemyAiType::QuadratorRight => if is_top_down { "🔄 Обходчик препятствий:\nБесконечно патрулирует внешний периметр прямоугольника вокруг внутренних блоков стен."@ } else { "🔄 Пристеночник-паук:\nПолзает по границам очерченной коробки, удерживаясь за стены, уступы или потолок."@ },
        EnemyAiType::QuadratorDown => if is_top_down { "🔄 Обходчик препятствий:\nБесконечно патрулирует внешний периметр прямоугольника вокруг внутренних блоков стен."@ } else { "🔄 Пристеночник-паук:\nПолзает по границам очерченной коробки, удерживаясь за стены, уступы или потолок."@ },
        EnemyAiType::QuadratorLeftOrLift => if is_top_down { "🔄 Обходчик препятствий:\nБесконечно патрулирует внешний периметр прямоугольника вокруг внутренних блоков стен."@ } else { "🔄 Пристеночник-паук:\nПолзает по границам очерченной коробки, удерживаясь за стены, уступы или потолок."@ },
        EnemyAiType::MarrulerRight => "🌀 Хаотичный Бродяга:\nИдет напролом сквозь коридоры. Упираясь лбом в стену, случайно выбирает новый вектор хода."@,
        EnemyAiType::MarrulerLeft => "🌀 Хаотичный Бродяга:\nИдет напролом сквозь коридоры. Упираясь лбом в стену, случайно выбирает новый вектор хода."@,
        EnemyAiType::MarrulerUp => "🌀 Хаотичный Бродяга:\nИдет напролом сквозь коридоры. Упираясь лбом в стену, случайно выбирает новый вектор хода."@,
        EnemyAiType::MarrulerDown => "🌀 Хаотичный Бродяга:\nИдет напролом сквозь коридоры. Упираясь лбом в стену, случайно выбирает новый вектор хода."@,
    }
}

impl EnemyAiType {
    /// Reads an engine byte; bytes outside 1..=14 give `EmptyOrDisabled`.
    pub fn from_u8(value: u8) -> (r: EnemyAiType)
        ensures
            r == ai_of_code(value),
    {
        match value {
            1 => EnemyAiType::LinearHorizontalLeft,
            2 => EnemyAiType::LinearHorizontalRight,
            3 => EnemyAiType::LinearVertical,
            4 => EnemyAiType::PlatformOrPursuer,
            5 => EnemyAiType::GhostRandomRespawn,
            6 => EnemyAiType::GhostFantyHoming,
            7 => EnemyAiType::QuadratorUp,
            8 => EnemyAiType::QuadratorRight,
            9 => EnemyAiType::QuadratorDown,
            10 => EnemyAiType::QuadratorLeftOrLift,
            11 => EnemyAiType::MarrulerRight,
            12 => EnemyAiType::MarrulerLeft,
            13 => EnemyAiType::MarrulerUp,
            14 => EnemyAiType::MarrulerDown,
            _ => EnemyAiType::EmptyOrDisabled,
        }
    }

    /// The engine byte written to `enems.h`.
    pub fn to_u8(self) -> (r: u8)
        ensures
            r == ai_code(self),
    {
        match self {
            EnemyAiType::EmptyOrDisabled => 0,
            EnemyAiType::LinearHorizontalLeft => 1,
            EnemyAiType::LinearHorizontalRight => 2,
            EnemyAiType::LinearVertical => 3,
            EnemyAiType::PlatformOrPursuer => 4,
            EnemyAiType::GhostRandomRespawn => 5,
            EnemyAiType::GhostFantyHoming => 6,
            EnemyAiType::QuadratorUp => 7,
            EnemyAiType::QuadratorRight => 8,
            EnemyAiType::QuadratorDown => 9,
            EnemyAiType::QuadratorLeftOrLift => 10,
            EnemyAiType::MarrulerRight => 11,
            EnemyAiType::MarrulerLeft => 12,
            EnemyAiType::MarrulerUp => 13,
            EnemyAiType::MarrulerDown => 14,
        }
    }

    /// Technical name for the editor, by game genre.
    pub fn to_ru_name(self, is_top_down: bool) -> (r: &'static str)
        ensures
            r@ == ai_name(self, is_top_down),
    {
        match self {
            EnemyAiType::EmptyOrDisabled => "Пустой слот (ИИ Выключен)",
            EnemyAiType::LinearHorizontalLeft => if is_top_down { "0x01: Рикошет / Диагональный ходок (Старт Влево)" } else { "0x01: Линейный по горизонтали (Старт Влево)" },
            EnemyAiType::LinearHorizontalRight => if is_top_down { "0x02: Рикошет / Диагональный ходок (Старт Вправо)" } else { "0x02: Линейный по горизонтали (Старт Вправо)" },
            EnemyAiType::LinearVertical => if is_top_down { "0x03: Рикошет / Диагональный ходок (Старт по Y)" } else { "0x03: Линейный по вертикали (Вверх/Вниз)" },
            EnemyAiType::PlatformOrPursuer => if is_top_down { "0x04: 🎯 АКТИВНЫЙ ОХОТНИК (Погоня по X/Y)" } else { "0x04: 🧗 ДВИЖУЩАЯСЯ ПЛАТФОРМА (Лифт)" },
            EnemyAiType::GhostRandomRespawn => "0x05: Призрак-летун (Случайный спавн на экране)",
            EnemyAiType::GhostFantyHoming => "0x06: Призрак Fanty (Агро-преследование и возврат)",
            EnemyAiType::QuadratorUp => if is_top_down { "0x07: Обходчик лабиринта / Вокруг камней (Старт Вверх)" } else { "0x07: Пристеночник / По уступам (Старт Вверх)" },
            EnemyAiType::QuadratorRight => if is_top_down { "0x08: Обходчик лабиринта / Вокруг камней (Старт Вправо)" } else { "0x08: Пристеночник / По уступам (Старт Вправо)" },
            EnemyAiType::QuadratorDown => if is_top_down { "0x09: Обходчик лабиринта / Вокруг камней (Старт Вниз)" } else { "0x09: Пристеночник / По уступам (Старт Вниз)" },
            EnemyAiType::QuadratorLeftOrLift => if is_top_down { "0x0A: Обходчик лабиринта / Вокруг камней (Старт Влево)" } else { "0x0A: Пристеночник / Квадратный лифт (Старт Влево)" },
            EnemyAiType::MarrulerRight => "0x0B: Хаотичный патрульный / Бродяга (Старт Вправо)",
            EnemyAiType::MarrulerLeft => "0x0C: Хаотичный патрульный / Бродяга (Старт Влево)",
            EnemyAiType::MarrulerUp => "0x0D: Хаотичный патрульный / Бродяга (Старт Вверх)",
            EnemyAiType::MarrulerDown => "0x0E: Хаотичный патрульный / Бродяга (Старт Вниз)",
        }
    }

    /// Tooltip text describing the AI's movement, by game genre.
    pub fn to_ru_description(self, is_top_down: bool) -> (r: &'static str)
        ensures
            r@ == ai_description(self, is_top_down),
    {
        match self {
            EnemyAiType::EmptyOrDisabled => "Враг полностью удален из памяти данного экрана.",
            EnemyAiType::LinearHorizontalLeft => if is_top_down { "↔️/↕️ Диагональный рикошет:\nХодит по вектору линии. При ударе о стену отскакивает под прямым углом." } else { "↔️/↕️ Линейные:\nХодят строго по прямой. Разворачиваются в конечной точке или при ударе о препятствие." },
            EnemyAiType::LinearHorizontalRight => if is_top_down { "↔️/↕️ Диагональный рикошет:\nХодит по вектору линии. При ударе о стену отскакивает под прямым углом." } else { "↔️/↕️ Линейные:\nХодят строго по прямой. Разворачиваются в конечной точке или при ударе о препятствие." },
            EnemyAiType::LinearVertical => if is_top_down { "↔️/↕️ Диагональный рикошет:\nХодит по вектору линии. При ударе о стену отскакивает под прямым углом." } else { "↔️/↕️ Линейные:\nХодят строго по прямой. Разворачиваются в конечной точке или при ударе о препятствие." },
            EnemyAiType::PlatformOrPursuer => if is_top_down { "🎯 Умный Охотник:\nКаждый кадр считывает координаты игрока и преследует его кратчайшим путем." } else { "🧗 Платформа-Лифт:\nСлужит твердой опорой для ног игрока. Перемещается по заданной траектории." },
            EnemyAiType::GhostRandomRespawn => "👻 Налётчик:\nСпавнится за пределами экрана наобум. Летит через комнату сквозь стены и исчезает.",
            EnemyAiType::GhostFantyHoming => "👻 Базовый страж:\nСпит в точке спавна. Заметив игрока в радиусе обзора, летит сквозь стены за ним. Теряя агро, летит назад.",
            EnemyAiType::QuadratorUp => if is_top_down { "🔄 Обходчик препятствий:\nБесконечно патрулирует внешний периметр прямоугольника вокруг внутренних блоков стен." } else { "🔄 Пристеночник-паук:\nПолзает по границам очерченной коробки, удерживаясь за стены, уступы или потолок." },
            EnemyAiType::QuadratorRight => if is_top_down { "🔄 Обходчик препятствий:\nБесконечно патрулирует внешний периметр прямоугольника вокруг внутренних блоков стен." } else { "🔄 Пристеночник-паук:\nПолзает по границам очерченной коробки, удерживаясь за стены, уступы или потолок." },
            EnemyAiType::QuadratorDown => if is_top_down { "🔄 Обходчик препятствий:\nБесконечно патрулирует внешний периметр прямоугольника вокруг внутренних блоков стен." } else { "🔄 Пристеночник-паук:\nПолзает по границам очерченной коробки, удерживаясь за стены, уступы или потолок." },
            EnemyAiType::QuadratorLeftOrLift => if is_top_down { "🔄 Обходчик препятствий:\nБесконечно патрулирует внешний периметр прямоугольника вокруг внутренних блоков стен." } else { "🔄 Пристеночник-паук:\nПолзает по границам очерченной коробки, удерживаясь за стены, уступы или потолок." },
            EnemyAiType::MarrulerRight => "🌀 Хаотичный Бродяга:\nИдет напролом сквозь коридоры. Упираясь лбом в стену, случайно выбирает новый вектор хода.",
            EnemyAiType::MarrulerLeft => "🌀 Хаотичный Бродяга:\nИдет напролом сквозь коридоры. Упираясь лбом в стену, случайно выбирает новый вектор хода.",
            EnemyAiType::MarrulerUp => "🌀 Хаотичный Бродяга:\nИдет напролом сквозь коридоры. Упираясь лбом в стену, случайно выбирает новый вектор хода.",
            EnemyAiType::MarrulerDown => "🌀 Хаотичный Бродяга:\nИдет напролом сквозь коридоры. Упираясь лбом в стену, случайно выбирает новый вектор хода.",
        }
    }

    /// The text shown for the type when no genre is given: its platformer name.
    pub fn to_display_string(self) -> (r: String)
        ensures
            r@ == ai_name(self, false),
    {
        String::from_str(self.to_ru_name(false))
    }

    /// Linear movers, codes 1..=4 (the platform / pursuer included).
    pub fn is_linear(self) -> (r: bool)
        ensures
            r == spec_is_linear(self),
    {
        matches!(self, EnemyAiType::LinearHorizontalLeft | EnemyAiType::LinearHorizontalRight | EnemyAiType::LinearVertical | EnemyAiType::PlatformOrPursuer)
    }

    /// Wall walkers, codes 7..=10.
    pub fn is_quadrator(self) -> (r: bool)
        ensures
            r == spec_is_quadrator(self),
    {
        matches!(self, EnemyAiType::QuadratorUp | EnemyAiType::QuadratorRight | EnemyAiType::QuadratorDown | EnemyAiType::QuadratorLeftOrLift)
    }

    /// Random wanderers, codes 11..=14.
    pub fn is_marruler(self) -> (r: bool)
        ensures
            r == spec_is_marruler(self),
    {
        matches!(self, EnemyAiType::MarrulerRight | EnemyAiType::MarrulerLeft | EnemyAiType::MarrulerUp | EnemyAiType::MarrulerDown)
    }

    /// Ghosts, codes 5 and 6.
    pub fn is_ghost(self) -> (r: bool)
        ensures
            r == spec_is_ghost(self),
    {
        matches!(self, EnemyAiType::GhostRandomRespawn | EnemyAiType::GhostFantyHoming)
    }
}

/// Reading back the byte of a type gives the type again.
pub proof fn lemma_code_round_trip(t: EnemyAiType)
    ensures
        ai_of_code(ai_code(t)) == t,
{
}

/// Writing the type read from a byte gives the byte back for 1..=14, and 0
/// for every other byte.
pub proof fn lemma_byte_round_trip(value: u8)
    ensures
        1 <= value <= 14 ==> ai_code(ai_of_code(value)) == value,
        !(1 <= value <= 14) ==> ai_code(ai_of_code(value)) == 0,
{
}

/// Every AI type other than the free slot falls in exactly one of the four
/// categories, and the free slot in none.
pub proof fn lemma_categories_partition(t: EnemyAiType)
    ensures
        t == EnemyAiType::EmptyOrDisabled ==> !spec_is_linear(t) && !spec_is_quadrator(t)
            && !spec_is_marruler(t) && !spec_is_ghost(t),
        t != EnemyAiType::EmptyOrDisabled ==> {
            &&& spec_is_linear(t) || spec_is_quadrator(t) || spec_is_marruler(t) || spec_is_ghost(t)
            &&& !(spec_is_linear(t) && spec_is_quadrator(t))
            &&& !(spec_is_linear(t) && spec_is_marruler(t))
            &&& !(spec_is_linear(t) && spec_is_ghost(t))
            &&& !(spec_is_quadrator(t) && spec_is_marruler(t))
            &&& !(spec_is_quadrator(t) && spec_is_ghost(t))
            &&& !(spec_is_marruler(t) && spec_is_ghost(t))
        },
{
}

} // verus!
