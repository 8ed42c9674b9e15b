//! The parts that the screen is made of.

use vstd::prelude::*;

verus! {

#[derive(Copy, Clone)]
pub enum ComponentFlag {
    Focused,
}

pub enum Component {
    Root {  },
    Text {  },
    List {  },
    Request {  },
    Response {  },
}

} // verus!
