use crate::types::{MeshId, UnitTypeId};
use vstd::prelude::*;

verus! {

/// How units of one type are drawn.
#[derive(Clone, Copy, Debug, PartialEq, Eq, Structural)]
pub struct UnitTypeVisualInfo {
    pub mesh_id: MeshId,
    /// Share of a tile step, in thousandths, that a moving unit covers per
    /// frame.
    pub move_speed: u32,
}

/// Visual information of each unit type, indexed by the type's id.
pub struct UnitTypeVisualInfoManager {
    list: Vec<UnitTypeVisualInfo>,
}

impl View for UnitTypeVisualInfoManager {
    type V = Seq<UnitTypeVisualInfo>;

    closed spec fn view(&self) -> Seq<UnitTypeVisualInfo> {
        self.list@
    }
}

impl UnitTypeVisualInfoManager {
    /// A manager that knows no type.
    pub fn new() -> (r: UnitTypeVisualInfoManager)
        ensures
            r@ == Seq::<UnitTypeVisualInfo>::empty(),
    {
        UnitTypeVisualInfoManager { list: Vec::new() }
    }

    /// Registers the information of the next type id.
    pub fn add_info(&mut self, info: UnitTypeVisualInfo)
        ensures
            final(self)@ == old(self)@.push(info),
    {
        self.list.push(info);
    }

    /// Number of types known.
    pub fn len(&self) -> (r: usize)
        ensures
            r == self@.len(),
    {
        self.list.len()
    }

    /// The information of type `type_id`.
    pub fn get(&self, type_id: UnitTypeId) -> (r: &UnitTypeVisualInfo)
        requires
            type_id.id < self@.len(),
        ensures
            *r == self@[type_id.id as int],
    {
        &self.list[type_id.id as usize]
    }
}

} // verus!
