//! Categories and periodicities of ledger entries, and the entries themselves.
use vstd::prelude::*;

use crate::calendar::Date;
use crate::text::same_text;

verus! {

/// The kind of an expense.
#[derive(Debug, Clone, Copy, PartialEq, Eq, Structural)]
pub enum TypeCategory {
    T1,
    T2,
    T3,
    T4,
    T5,
    T6,
    T7,
    T8,
    T9,
    T10,
}

/// How necessary an expense is.
#[derive(Debug, Clone, Copy, PartialEq, Eq, Structural)]
pub enum NecessityCategory {
    N1,
    N2,
    N3,
}

/// How often a regular entry recurs.
#[derive(Debug, Clone, Copy, PartialEq, Eq, Structural)]
pub enum Periodicity {
    Monthly,
    Yearly,
}

/// The German display name of a type category.
pub open spec fn type_label(c: TypeCategory) -> Seq<char> {
    match c {
        TypeCategory::T1 => "Lebensmittel&Haushaltsbedarf"@,
        TypeCategory::T2 => "Freizeit"@,
        TypeCategory::T3 => "Mobilität"@,
        TypeCategory::T4 => "Kleidung"@,
        TypeCategory::T5 => "Elektronik"@,
        TypeCategory::T6 => "Wohnungseinrichtung"@,
        TypeCategory::T7 => "Urlaub"@,
        TypeCategory::T8 => "Miete"@,
        TypeCategory::T9 => "Versicherungen"@,
        TypeCategory::T10 => "Sonstiges"@,
    }
}

/// The type category a display name stands for. The rent category is recognised
/// under the spelling "MieteC".
pub open spec fn type_from_label(s: Seq<char>) -> Option<TypeCategory> {
    if s == "Lebensmittel&Haushaltsbedarf"@ {
        Some(TypeCategory::T1)
    } else if s == "Freizeit"@ {
        Some(TypeCategory::T2)
    } else if s == "Mobilität"@ {
        Some(TypeCategory::T3)
    } else if s == "Kleidung"@ {
        Some(TypeCategory::T4)
    } else if s == "Elektronik"@ {
        Some(TypeCategory::T5)
    } else if s == "Wohnungseinrichtung"@ {
        Some(TypeCategory::T6)
    } else if s == "Urlaub"@ {
        Some(TypeCategory::T7)
    } else if s == "MieteC"@ {
        Some(TypeCategory::T8)
    } else if s == "Versicherungen"@ {
        Some(TypeCategory::T9)
    } else if s == "Sonstiges"@ {
        Some(TypeCategory::T10)
    } else {
        None
    }
}

/// The storage code of a type category.
pub open spec fn type_code(c: TypeCategory) -> Seq<char> {
    match c {
        TypeCategory::T1 => "T1"@,
        TypeCategory::T2 => "T2"@,
        TypeCategory::T3 => "T3"@,
        TypeCategory::T4 => "T4"@,
        TypeCategory::T5 => "T5"@,
        TypeCategory::T6 => "T6"@,
        TypeCategory::T7 => "T7"@,
        TypeCategory::T8 => "T8"@,
        TypeCategory::T9 => "T9"@,
        TypeCategory::T10 => "T10"@,
    }
}

/// The type category a storage code stands for.
pub open spec fn type_from_code(s: Seq<char>) -> Option<TypeCategory> {
    if s == "T1"@ {
        Some(TypeCategory::T1)
    } else if s == "T2"@ {
        Some(TypeCategory::T2)
    } else if s == "T3"@ {
        Some(TypeCategory::T3)
    } else if s == "T4"@ {
        Some(TypeCategory::T4)
    } else if s == "T5"@ {
        Some(TypeCategory::T5)
    } else if s == "T6"@ {
        Some(TypeCategory::T6)
    } else if s == "T7"@ {
        Some(TypeCategory::T7)
    } else if s == "T8"@ {
        Some(TypeCategory::T8)
    } else if s == "T9"@ {
        Some(TypeCategory::T9)
    } else if s == "T10"@ {
        Some(TypeCategory::T10)
    } else {
        None
    }
}

/// The German display name of a necessity category.
pub open spec fn necessity_label(c: NecessityCategory) -> Seq<char> {
    match c {
        NecessityCategory::N1 => "Notwendig"@,
        NecessityCategory::N2 => "Nützlich"@,
        NecessityCategory::N3 => "Luxus"@,
    }
}

/// The necessity category a display name stands for.
pub open spec fn necessity_from_label(s: Seq<char>) -> Option<NecessityCategory> {
    if s == "Notwendig"@ {
        Some(NecessityCategory::N1)
    } else if s == "Nützlich"@ {
        Some(NecessityCategory::N2)
    } else if s == "Luxus"@ {
        Some(NecessityCategory::N3)
    } else {
        None
    }
}

/// The storage code of a necessity category.
pub open spec fn necessity_code(c: NecessityCategory) -> Seq<char> {
    match c {
        NecessityCategory::N1 => "N1"@,
        NecessityCategory::N2 => "N2"@,
        NecessityCategory::N3 => "N3"@,
    }
}

/// The necessity category a storage code stands for.
pub open spec fn necessity_from_code(s: Seq<char>) -> Option<NecessityCategory> {
    if s == "N1"@ {
        Some(NecessityCategory::N1)
    } else if s == "N2"@ {
        Some(NecessityCategory::N2)
    } else if s == "N3"@ {
        Some(NecessityCategory::N3)
    } else {
        None
    }
}

/// The stored name of a periodicity.
pub open spec fn periodicity_label(c: Periodicity) -> Seq<char> {
    match c {
        Periodicity::Monthly => "monthly"@,
        Periodicity::Yearly => "yearly"@,
    }
}

/// The periodicity a stored name stands for.
pub open spec fn periodicity_from_label(s: Seq<char>) -> Option<Periodicity> {
    if s == "monthly"@ {
        Some(Periodicity::Monthly)
    } else if s == "yearly"@ {
        Some(Periodicity::Yearly)
    } else {
        None
    }
}

impl TypeCategory {
    /// The display name.
    pub fn as_str(&self) -> (s: &'static str)
        ensures
            s@ == type_label(*self),
    {
        match self {
            TypeCategory::T1 => "Lebensmittel&Haushaltsbedarf",
            TypeCategory::T2 => "Freizeit",
            TypeCategory::T3 => "Mobilität",
            TypeCategory::T4 => "Kleidung",
            TypeCategory::T5 => "Elektronik",
            TypeCategory::T6 => "Wohnungseinrichtung",
            TypeCategory::T7 => "Urlaub",
            TypeCategory::T8 => "Miete",
            TypeCategory::T9 => "Versicherungen",
            TypeCategory::T10 => "Sonstiges",
        }
    }

    /// The category of a display name.
    pub fn from_str(s: &str) -> (r: Option<TypeCategory>)
        ensures
            r == type_from_label(s@),
    {
        if same_text(s, "Lebensmittel&Haushaltsbedarf") {
            Some(TypeCategory::T1)
        } else if same_text(s, "Freizeit") {
            Some(TypeCategory::T2)
        } else if same_text(s, "Mobilität") {
            Some(TypeCategory::T3)
        } else if same_text(s, "Kleidung") {
            Some(TypeCategory::T4)
        } else if same_text(s, "Elektronik") {
            Some(TypeCategory::T5)
        } else if same_text(s, "Wohnungseinrichtung") {
            Some(TypeCategory::T6)
        } else if same_text(s, "Urlaub") {
            Some(TypeCategory::T7)
        } else if same_text(s, "MieteC") {
            Some(TypeCategory::T8)
        } else if same_text(s, "Versicherungen") {
            Some(TypeCategory::T9)
        } else if same_text(s, "Sonstiges") {
            Some(TypeCategory::T10)
        } else {
            None
        }
    }

    /// The storage code.
    pub fn code(&self) -> (s: &'static str)
        ensures
            s@ == type_code(*self),
    {
        match self {
            TypeCategory::T1 => "T1",
            TypeCategory::T2 => "T2",
            TypeCategory::T3 => "T3",
            TypeCategory::T4 => "T4",
            TypeCategory::T5 => "T5",
            TypeCategory::T6 => "T6",
            TypeCategory::T7 => "T7",
            TypeCategory::T8 => "T8",
            TypeCategory::T9 => "T9",
            TypeCategory::T10 => "T10",
        }
    }

    /// The category of a storage code.
    pub fn from_code(s: &str) -> (r: Option<TypeCategory>)
        ensures
            r == type_from_code(s@),
    {
        if same_text(s, "T1") {
            Some(TypeCategory::T1)
        } else if same_text(s, "T2") {
            Some(TypeCategory::T2)
        } else if same_text(s, "T3") {
            Some(TypeCategory::T3)
        } else if same_text(s, "T4") {
            Some(TypeCategory::T4)
        } else if same_text(s, "T5") {
            Some(TypeCategory::T5)
        } else if same_text(s, "T6") {
            Some(TypeCategory::T6)
        } else if same_text(s, "T7") {
            Some(TypeCategory::T7)
        } else if same_text(s, "T8") {
            Some(TypeCategory::T8)
        } else if same_text(s, "T9") {
            Some(TypeCategory::T9)
        } else if same_text(s, "T10") {
            Some(TypeCategory::T10)
        } else {
            None
        }
    }
}

impl NecessityCategory {
    /// The display name.
    pub fn as_str(&self) -> (s: &'static str)
        ensures
            s@ == necessity_label(*self),
    {
        match self {
            NecessityCategory::N1 => "Notwendig",
            NecessityCategory::N2 => "Nützlich",
            NecessityCategory::N3 => "Luxus",
        }
    }

    /// The category of a display name.
    pub fn from_str(s: &str) -> (r: Option<NecessityCategory>)
        ensures
            r == necessity_from_label(s@),
    {
        if same_text(s, "Notwendig") {
            Some(NecessityCategory::N1)
        } else if same_text(s, "Nützlich") {
            Some(NecessityCategory::N2)
        } else if same_text(s, "Luxus") {
            Some(NecessityCategory::N3)
        } else {
            None
        }
    }

    /// The storage code.
    pub fn code(&self) -> (s: &'static str)
        ensures
            s@ == necessity_code(*self),
    {
        match self {
            NecessityCategory::N1 => "N1",
            NecessityCategory::N2 => "N2",
            NecessityCategory::N3 => "N3",
        }
    }

    /// The category of a storage code.
    pub fn from_code(s: &str) -> (r: Option<NecessityCategory>)
        ensures
            r == necessity_from_code(s@),
    {
        if same_text(s, "N1") {
            Some(NecessityCategory::N1)
        } else if same_text(s, "N2") {
            Some(NecessityCategory::N2)
        } else if same_text(s, "N3") {
            Some(NecessityCategory::N3)
        } else {
            None
        }
    }
}

impl Periodicity {
    /// The stored name.
    pub fn as_str(&self) -> (s: &'static str)
        ensures
            s@ == periodicity_label(*self),
    {
        match self {
            Periodicity::Monthly => "monthly",
            Periodicity::Yearly => "yearly",
        }
    }

    /// The periodicity of a stored name.
    pub fn from_str(s: &str) -> (r: Option<Periodicity>)
        ensures
            r == periodicity_from_label(s@),
    {
        if same_text(s, "monthly") {
            Some(Periodicity::Monthly)
        } else if same_text(s, "yearly") {
            Some(Periodicity::Yearly)
        } else {
            None
        }
    }
}

/// Reading back the display name of a type category gives the category, for
/// every category but rent, whose name is read under another spelling.
pub proof fn lemma_type_label_round_trip(c: TypeCategory)
    requires
        c != TypeCategory::T8,
    ensures
        type_from_label(type_label(c)) == Some(c),
{
    match c {
        TypeCategory::T1 => {
            assert(type_from_label(type_label(c)) == Some(c)) by {
                reveal_strlit("Lebensmittel&Haushaltsbedarf");
            }
        },
        TypeCategory::T2 => {
            assert(type_from_label(type_label(c)) == Some(c)) by {
                reveal_strlit("Freizeit");
                reveal_strlit("Lebensmittel&Haushaltsbedarf");
                assert("Freizeit"@.len() != "Lebensmittel&Haushaltsbedarf"@.len());
                assert("Freizeit"@ != "Lebensmittel&Haushaltsbedarf"@);
            }
        },
        TypeCategory::T3 => {
            assert(type_from_label(type_label(c)) == Some(c)) by {
                reveal_strlit("Mobilität");
                reveal_strlit("Lebensmittel&Haushaltsbedarf");
                assert("Mobilität"@.len() != "Lebensmittel&Haushaltsbedarf"@.len());
                assert("Mobilität"@ != "Lebensmittel&Haushaltsbedarf"@);
                reveal_strlit("Freizeit");
                assert("Mobilität"@.len() != "Freizeit"@.len());
                assert("Mobilität"@ != "Freizeit"@);
            }
        },
        TypeCategory::T4 => {
            assert(type_from_label(type_label(c)) == Some(c)) by {
                reveal_strlit("Kleidung");
                reveal_strlit("Lebensmittel&Haushaltsbedarf");
                assert("Kleidung"@.len() != "Lebensmittel&Haushaltsbedarf"@.len());
                assert("Kleidung"@ != "Lebensmittel&Haushaltsbedarf"@);
                reveal_strlit("Freizeit");
                assert("Kleidung"@[0] != "Freizeit"@[0]);
                assert("Kleidung"@ != "Freizeit"@);
                reveal_strlit("Mobilität");
                assert("Kleidung"@.len() != "Mobilität"@.len());
                assert("Kleidung"@ != "Mobilität"@);
            }
        },
        TypeCategory::T5 => {
            assert(type_from_label(type_label(c)) == Some(c)) by {
                reveal_strlit("Elektronik");
                reveal_strlit("Lebensmittel&Haushaltsbedarf");
                assert("Elektronik"@.len() != "Lebensmittel&Haushaltsbedarf"@.len());
                assert("Elektronik"@ != "Lebensmittel&Haushaltsbedarf"@);
                reveal_strlit("Freizeit");
                assert("Elektronik"@.len() != "Freizeit"@.len());
                assert("Elektronik"@ != "Freizeit"@);
                reveal_strlit("Mobilität");
                assert("Elektronik"@.len() != "Mobilität"@.len());
                assert("Elektronik"@ != "Mobilität"@);
                reveal_strlit("Kleidung");
                assert("Elektronik"@.len() != "Kleidung"@.len());
                assert("Elektronik"@ != "Kleidung"@);
            }
        },
        TypeCategory::T6 => {
            assert(type_from_label(type_label(c)) == Some(c)) by {
                reveal_strlit("Wohnungseinrichtung");
                reveal_strlit("Lebensmittel&Haushaltsbedarf");
                assert("Wohnungseinrichtung"@.len() != "Lebensmittel&Haushaltsbedarf"@.len());
                assert("Wohnungseinrichtung"@ != "Lebensmittel&Haushaltsbedarf"@);
                reveal_strlit("Freizeit");
                assert("Wohnungseinrichtung"@.len() != "Freizeit"@.len());
                assert("Wohnungseinrichtung"@ != "Freizeit"@);
                reveal_strlit("Mobilität");
                assert("Wohnungseinrichtung"@.len() != "Mobilität"@.len());
                assert("Wohnungseinrichtung"@ != "Mobilität"@);
                reveal_strlit("Kleidung");
                assert("Wohnungseinrichtung"@.len() != "Kleidung"@.len());
                assert("Wohnungseinrichtung"@ != "Kleidung"@);
                reveal_strlit("Elektronik");
                assert("Wohnungseinrichtung"@.len() != "Elektronik"@.len());
                assert("Wohnungseinrichtung"@ != "Elektronik"@);
            }
        },
        TypeCategory::T7 => {
            assert(type_from_label(type_label(c)) == Some(c)) by {
                reveal_strlit("Urlaub");
                reveal_strlit("Lebensmittel&Haushaltsbedarf");
                assert("Urlaub"@.len() != "Lebensmittel&Haushaltsbedarf"@.len());
                assert("Urlaub"@ != "Lebensmittel&Haushaltsbedarf"@);
                reveal_strlit("Freizeit");
                assert("Urlaub"@.len() != "Freizeit"@.len());
                assert("Urlaub"@ != "Freizeit"@);
                reveal_strlit("Mobilität");
                assert("Urlaub"@.len() != "Mobilität"@.len());
                assert("Urlaub"@ != "Mobilität"@);
                reveal_strlit("Kleidung");
                assert("Urlaub"@.len() != "Kleidung"@.len());
                assert("Urlaub"@ != "Kleidung"@);
                reveal_strlit("Elektronik");
                assert("Urlaub"@.len() != "Elektronik"@.len());
                assert("Urlaub"@ != "Elektronik"@);
                reveal_strlit("Wohnungseinrichtung");
                assert("Urlaub"@.len() != "Wohnungseinrichtung"@.len());
                assert("Urlaub"@ != "Wohnungseinrichtung"@);
            }
        },
        TypeCategory::T8 => {},
        TypeCategory::T9 => {
            assert(type_from_label(type_label(c)) == Some(c)) by {
                reveal_strlit("Versicherungen");
                reveal_strlit("Lebensmittel&Haushaltsbedarf");
                assert("Versicherungen"@.len() != "Lebensmittel&Haushaltsbedarf"@.len());
                assert("Versicherungen"@ != "Lebensmittel&Haushaltsbedarf"@);
                reveal_strlit("Freizeit");
                assert("Versicherungen"@.len() != "Freizeit"@.len());
                assert("Versicherungen"@ != "Freizeit"@);
                reveal_strlit("Mobilität");
                assert("Versicherungen"@.len() != "Mobilität"@.len());
                assert("Versicherungen"@ != "Mobilität"@);
                reveal_strlit("Kleidung");
                assert("Versicherungen"@.len() != "Kleidung"@.len());
                assert("Versicherungen"@ != "Kleidung"@);
                reveal_strlit("Elektronik");
                assert("Versicherungen"@.len() != "Elektronik"@.len());
                assert("Versicherungen"@ != "Elektronik"@);
                reveal_strlit("Wohnungseinrichtung");
                assert("Versicherungen"@.len() != "Wohnungseinrichtung"@.len());
                assert("Versicherungen"@ != "Wohnungseinrichtung"@);
                reveal_strlit("Urlaub");
                assert("Versicherungen"@.len() != "Urlaub"@.len());
                assert("Versicherungen"@ != "Urlaub"@);
                reveal_strlit("MieteC");
                assert("Versicherungen"@.len() != "MieteC"@.len());
                assert("Versicherungen"@ != "MieteC"@);
            }
        },
        TypeCategory::T10 => {
            assert(type_from_label(type_label(c)) == Some(c)) by {
                reveal_strlit("Sonstiges");
                reveal_strlit("Lebensmittel&Haushaltsbedarf");
                assert("Sonstiges"@.len() != "Lebensmittel&Haushaltsbedarf"@.len());
                assert("Sonstiges"@ != "Lebensmittel&Haushaltsbedarf"@);
                reveal_strlit("Freizeit");
                assert("Sonstiges"@.len() != "Freizeit"@.len());
                assert("Sonstiges"@ != "Freizeit"@);
                reveal_strlit("Mobilität");
                assert("Sonstiges"@[0] != "Mobilität"@[0]);
                assert("Sonstiges"@ != "Mobilität"@);
                reveal_strlit("Kleidung");
                assert("Sonstiges"@.len() != "Kleidung"@.len());
                assert("Sonstiges"@ != "Kleidung"@);
                reveal_strlit("Elektronik");
                assert("Sonstiges"@.len() != "Elektronik"@.len());
                assert("Sonstiges"@ != "Elektronik"@);
                reveal_strlit("Wohnungseinrichtung");
                assert("Sonstiges"@.len() != "Wohnungseinrichtung"@.len());
                assert("Sonstiges"@ != "Wohnungseinrichtung"@);
                reveal_strlit("Urlaub");
                assert("Sonstiges"@.len() != "Urlaub"@.len());
                assert("Sonstiges"@ != "Urlaub"@);
                reveal_strlit("MieteC");
                assert("Sonstiges"@.len() != "MieteC"@.len());
                assert("Sonstiges"@ != "MieteC"@);
                reveal_strlit("Versicherungen");
                assert("Sonstiges"@.len() != "Versicherungen"@.len());
                assert("Sonstiges"@ != "Versicherungen"@);
            }
        },
    }
}

/// Reading back the storage code of a type category gives the category.
pub proof fn lemma_type_code_round_trip(c: TypeCategory)
    ensures
        type_from_code(type_code(c)) == Some(c),
{
    match c {
        TypeCategory::T1 => {
            assert(type_from_code(type_code(c)) == Some(c)) by {
                reveal_strlit("T1");
            }
        },
        TypeCategory::T2 => {
            assert(type_from_code(type_code(c)) == Some(c)) by {
                reveal_strlit("T2");
                reveal_strlit("T1");
                assert("T2"@[1] != "T1"@[1]);
                assert("T2"@ != "T1"@);
            }
        },
        TypeCategory::T3 => {
            assert(type_from_code(type_code(c)) == Some(c)) by {
                reveal_strlit("T3");
                reveal_strlit("T1");
                assert("T3"@[1] != "T1"@[1]);
                assert("T3"@ != "T1"@);
                reveal_strlit("T2");
                assert("T3"@[1] != "T2"@[1]);
                assert("T3"@ != "T2"@);
            }
        },
        TypeCategory::T4 => {
            assert(type_from_code(type_code(c)) == Some(c)) by {
                reveal_strlit("T4");
                reveal_strlit("T1");
                assert("T4"@[1] != "T1"@[1]);
                assert("T4"@ != "T1"@);
                reveal_strlit("T2");
                assert("T4"@[1] != "T2"@[1]);
                assert("T4"@ != "T2"@);
                reveal_strlit("T3");
                assert("T4"@[1] != "T3"@[1]);
                assert("T4"@ != "T3"@);
            }
        },
        TypeCategory::T5 => {
            assert(type_from_code(type_code(c)) == Some(c)) by {
                reveal_strlit("T5");
                reveal_strlit("T1");
                assert("T5"@[1] != "T1"@[1]);
                assert("T5"@ != "T1"@);
                reveal_strlit("T2");
                assert("T5"@[1] != "T2"@[1]);
                assert("T5"@ != "T2"@);
                reveal_strlit("T3");
                assert("T5"@[1] != "T3"@[1]);
                assert("T5"@ != "T3"@);
                reveal_strlit("T4");
                assert("T5"@[1] != "T4"@[1]);
                assert("T5"@ != "T4"@);
            }
        },
        TypeCategory::T6 => {
            assert(type_from_code(type_code(c)) == Some(c)) by {
                reveal_strlit("T6");
                reveal_strlit("T1");
                assert("T6"@[1] != "T1"@[1]);
                assert("T6"@ != "T1"@);
                reveal_strlit("T2");
                assert("T6"@[1] != "T2"@[1]);
                assert("T6"@ != "T2"@);
                reveal_strlit("T3");
                assert("T6"@[1] != "T3"@[1]);
                assert("T6"@ != "T3"@);
                reveal_strlit("T4");
                assert("T6"@[1] != "T4"@[1]);
                assert("T6"@ != "T4"@);
                reveal_strlit("T5");
                assert("T6"@[1] != "T5"@[1]);
                assert("T6"@ != "T5"@);
            }
        },
        TypeCategory::T7 => {
            assert(type_from_code(type_code(c)) == Some(c)) by {
                reveal_strlit("T7");
                reveal_strlit("T1");
                assert("T7"@[1] != "T1"@[1]);
                assert("T7"@ != "T1"@);
                reveal_strlit("T2");
                assert("T7"@[1] != "T2"@[1]);
                assert("T7"@ != "T2"@);
                reveal_strlit("T3");
                assert("T7"@[1] != "T3"@[1]);
                assert("T7"@ != "T3"@);
                reveal_strlit("T4");
                assert("T7"@[1] != "T4"@[1]);
                assert("T7"@ != "T4"@);
                reveal_strlit("T5");
                assert("T7"@[1] != "T5"@[1]);
                assert("T7"@ != "T5"@);
                reveal_strlit("T6");
                assert("T7"@[1] != "T6"@[1]);
                assert("T7"@ != "T6"@);
            }
        },
        TypeCategory::T8 => {
            assert(type_from_code(type_code(c)) == Some(c)) by {
                reveal_strlit("T8");
                reveal_strlit("T1");
                assert("T8"@[1] != "T1"@[1]);
                assert("T8"@ != "T1"@);
                reveal_strlit("T2");
                assert("T8"@[1] != "T2"@[1]);
                assert("T8"@ != "T2"@);
                reveal_strlit("T3");
                assert("T8"@[1] != "T3"@[1]);
                assert("T8"@ != "T3"@);
                reveal_strlit("T4");
                assert("T8"@[1] != "T4"@[1]);
                assert("T8"@ != "T4"@);
                reveal_strlit("T5");
                assert("T8"@[1] != "T5"@[1]);
                assert("T8"@ != "T5"@);
                reveal_strlit("T6");
                assert("T8"@[1] != "T6"@[1]);
                assert("T8"@ != "T6"@);
                reveal_strlit("T7");
                assert("T8"@[1] != "T7"@[1]);
                assert("T8"@ != "T7"@);
            }
        },
        TypeCategory::T9 => {
            assert(type_from_code(type_code(c)) == Some(c)) by {
                reveal_strlit("T9");
                reveal_strlit("T1");
                assert("T9"@[1] != "T1"@[1]);
                assert("T9"@ != "T1"@);
                reveal_strlit("T2");
                assert("T9"@[1] != "T2"@[1]);
                assert("T9"@ != "T2"@);
                reveal_strlit("T3");
                assert("T9"@[1] != "T3"@[1]);
                assert("T9"@ != "T3"@);
                reveal_strlit("T4");
                assert("T9"@[1] != "T4"@[1]);
                assert("T9"@ != "T4"@);
                reveal_strlit("T5");
                assert("T9"@[1] != "T5"@[1]);
                assert("T9"@ != "T5"@);
                reveal_strlit("T6");
                assert("T9"@[1] != "T6"@[1]);
                assert("T9"@ != "T6"@);
                reveal_strlit("T7");
                assert("T9"@[1] != "T7"@[1]);
                assert("T9"@ != "T7"@);
                reveal_strlit("T8");
                assert("T9"@[1] != "T8"@[1]);
                assert("T9"@ != "T8"@);
            }
        },
        TypeCategory::T10 => {
            assert(type_from_code(type_code(c)) == Some(c)) by {
                reveal_strlit("T10");
                reveal_strlit("T1");
                assert("T10"@.len() != "T1"@.len());
                assert("T10"@ != "T1"@);
                reveal_strlit("T2");
                assert("T10"@.len() != "T2"@.len());
                assert("T10"@ != "T2"@);
                reveal_strlit("T3");
                assert("T10"@.len() != "T3"@.len());
                assert("T10"@ != "T3"@);
                reveal_strlit("T4");
                assert("T10"@.len() != "T4"@.len());
                assert("T10"@ != "T4"@);
                reveal_strlit("T5");
                assert("T10"@.len() != "T5"@.len());
                assert("T10"@ != "T5"@);
                reveal_strlit("T6");
                assert("T10"@.len() != "T6"@.len());
                assert("T10"@ != "T6"@);
                reveal_strlit("T7");
                assert("T10"@.len() != "T7"@.len());
                assert("T10"@ != "T7"@);
                reveal_strlit("T8");
                assert("T10"@.len() != "T8"@.len());
                assert("T10"@ != "T8"@);
                reveal_strlit("T9");
                assert("T10"@.len() != "T9"@.len());
                assert("T10"@ != "T9"@);
            }
        },
    }
}

/// Reading back the display name of a necessity category gives the category.
pub proof fn lemma_necessity_label_round_trip(c: NecessityCategory)
    ensures
        necessity_from_label(necessity_label(c)) == Some(c),
{
    match c {
        NecessityCategory::N1 => {
            assert(necessity_from_label(necessity_label(c)) == Some(c)) by {
                reveal_strlit("Notwendig");
            }
        },
        NecessityCategory::N2 => {
            assert(necessity_from_label(necessity_label(c)) == Some(c)) by {
                reveal_strlit("Nützlich");
                reveal_strlit("Notwendig");
                assert("Nützlich"@.len() != "Notwendig"@.len());
                assert("Nützlich"@ != "Notwendig"@);
            }
        },
        NecessityCategory::N3 => {
            assert(necessity_from_label(necessity_label(c)) == Some(c)) by {
                reveal_strlit("Luxus");
                reveal_strlit("Notwendig");
                assert("Luxus"@.len() != "Notwendig"@.len());
                assert("Luxus"@ != "Notwendig"@);
                reveal_strlit("Nützlich");
                assert("Luxus"@.len() != "Nützlich"@.len());
                assert("Luxus"@ != "Nützlich"@);
            }
        },
    }
}

/// Reading back the storage code of a necessity category gives the category.
pub proof fn lemma_necessity_code_round_trip(c: NecessityCategory)
    ensures
        necessity_from_code(necessity_code(c)) == Some(c),
{
    match c {
        NecessityCategory::N1 => {
            assert(necessity_from_code(necessity_code(c)) == Some(c)) by {
                reveal_strlit("N1");
            }
        },
        NecessityCategory::N2 => {
            assert(necessity_from_code(necessity_code(c)) == Some(c)) by {
                reveal_strlit("N2");
                reveal_strlit("N1");
                assert("N2"@[1] != "N1"@[1]);
                assert("N2"@ != "N1"@);
            }
        },
        NecessityCategory::N3 => {
            assert(necessity_from_code(necessity_code(c)) == Some(c)) by {
                reveal_strlit("N3");
                reveal_strlit("N1");
                assert("N3"@[1] != "N1"@[1]);
                assert("N3"@ != "N1"@);
                reveal_strlit("N2");
                assert("N3"@[1] != "N2"@[1]);
                assert("N3"@ != "N2"@);
            }
        },
    }
}

/// Reading back the stored name of a periodicity gives the periodicity.
pub proof fn lemma_periodicity_label_round_trip(c: Periodicity)
    ensures
        periodicity_from_label(periodicity_label(c)) == Some(c),
{
    match c {
        Periodicity::Monthly => {
            assert(periodicity_from_label(periodicity_label(c)) == Some(c)) by {
                reveal_strlit("monthly");
            }
        },
        Periodicity::Yearly => {
            assert(periodicity_from_label(periodicity_label(c)) == Some(c)) by {
                reveal_strlit("yearly");
                reveal_strlit("monthly");
                assert("yearly"@.len() != "monthly"@.len());
                assert("yearly"@ != "monthly"@);
            }
        },
    }
}

/// A text that is read as a type category is that category's display name,
/// but for the spelling "MieteC", which is read as rent.
pub proof fn lemma_type_label_read_back(s: Seq<char>)
    requires
        type_from_label(s) is Some,
        s != "MieteC"@,
    ensures
        type_label(type_from_label(s)->0) == s,
{
}

/// A text that is read as a type category is that category's storage code.
pub proof fn lemma_type_code_read_back(s: Seq<char>)
    requires
        type_from_code(s) is Some,
    ensures
        type_code(type_from_code(s)->0) == s,
{
}

/// A text that is read as a necessity category is that category's name.
pub proof fn lemma_necessity_label_read_back(s: Seq<char>)
    requires
        necessity_from_label(s) is Some,
    ensures
        necessity_label(necessity_from_label(s)->0) == s,
{
}

/// A text that is read as a necessity category is that category's storage code.
pub proof fn lemma_necessity_code_read_back(s: Seq<char>)
    requires
        necessity_from_code(s) is Some,
    ensures
        necessity_code(necessity_from_code(s)->0) == s,
{
}

/// A text that is read as a periodicity is that periodicity's stored name.
pub proof fn lemma_periodicity_label_read_back(s: Seq<char>)
    requires
        periodicity_from_label(s) is Some,
    ensures
        periodicity_label(periodicity_from_label(s)->0) == s,
{
}

/// A one-time income or expense. The amount is carried as a value of `A`,
/// on which nothing here computes.
pub struct SingularEntry<A> {
    pub id: Option<i64>,
    pub amount: A,
    pub description: String,
    pub date: Date,
    pub type_category: TypeCategory,
    pub necessity_category: NecessityCategory,
    pub is_income: bool,
}

/// A recurring income or expense, valid from its start date to its end date.
pub struct RegularEntry<A> {
    pub id: Option<i64>,
    pub amount: A,
    pub description: String,
    pub periodicity: Periodicity,
    pub start_date: Date,
    pub end_date: Date,
    pub type_category: TypeCategory,
    pub necessity_category: NecessityCategory,
    pub is_income: bool,
}

/// One part of a wealth snapshot.
pub struct WealthComponent<A> {
    pub id: Option<i64>,
    pub snapshot_id: Option<i64>,
    pub name: String,
    pub amount: A,
}

/// The wealth held on a day, by component, with its total.
pub struct WealthSnapshot<A> {
    pub id: Option<i64>,
    pub date: Date,
    pub components: Vec<WealthComponent<A>>,
    pub total: A,
}

/// A fixed salary, effective from a day.
pub struct FixedSalary<A> {
    pub id: Option<i64>,
    pub effective_date: Date,
    pub monthly_amount: A,
    pub payments_per_year: u32,
}

/// A one-time salary payment.
pub struct VariableSalary<A> {
    pub id: Option<i64>,
    pub date: Date,
    pub amount: A,
    pub description: String,
}

/// A one-time entry with its description as a character sequence.
pub struct SingularEntryView<A> {
    pub id: Option<i64>,
    pub amount: A,
    pub description: Seq<char>,
    pub date: Date,
    pub type_category: TypeCategory,
    pub necessity_category: NecessityCategory,
    pub is_income: bool,
}

/// A recurring entry with its description as a character sequence.
pub struct RegularEntryView<A> {
    pub id: Option<i64>,
    pub amount: A,
    pub description: Seq<char>,
    pub periodicity: Periodicity,
    pub start_date: Date,
    pub end_date: Date,
    pub type_category: TypeCategory,
    pub necessity_category: NecessityCategory,
    pub is_income: bool,
}

impl<A> View for SingularEntry<A> {
    type V = SingularEntryView<A>;

    open spec fn view(&self) -> SingularEntryView<A> {
        SingularEntryView {
            id: self.id,
            amount: self.amount,
            description: self.description@,
            date: self.date,
            type_category: self.type_category,
            necessity_category: self.necessity_category,
            is_income: self.is_income,
        }
    }
}

impl<A> View for RegularEntry<A> {
    type V = RegularEntryView<A>;

    open spec fn view(&self) -> RegularEntryView<A> {
        RegularEntryView {
            id: self.id,
            amount: self.amount,
            description: self.description@,
            periodicity: self.periodicity,
            start_date: self.start_date,
            end_date: self.end_date,
            type_category: self.type_category,
            necessity_category: self.necessity_category,
            is_income: self.is_income,
        }
    }
}

} // verus!
