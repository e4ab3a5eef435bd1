//! The built-in demo scenes offered by the editor.
use vstd::prelude::*;

verus! {

/// A built-in demo scene.
#[derive(Debug, Clone, Copy, PartialEq, Eq)]
pub enum DemoScene {
    PrimitiveGallery,
    BooleanSampler,
    ModifierParade,
    MushroomGarden,
    RobotFriend,
    AbstractSculpture,
}

impl DemoScene {
    /// Menu label of the demo.
    pub open spec fn label_spec(self) -> Seq<char> {
        match self {
            DemoScene::PrimitiveGallery => "Primitive Gallery"@,
            DemoScene::BooleanSampler => "Boolean Sampler"@,
            DemoScene::ModifierParade => "Modifier Parade"@,
            DemoScene::MushroomGarden => "Mushroom Garden"@,
            DemoScene::RobotFriend => "Robot Friend"@,
            DemoScene::AbstractSculpture => "Abstract Sculpture"@,
        }
    }

    /// Menu label of the demo.
    pub fn label(&self) -> (r: &'static str)
        ensures
            r@ == self.label_spec(),
    {
        match self {
            DemoScene::PrimitiveGallery => "Primitive Gallery",
            DemoScene::BooleanSampler => "Boolean Sampler",
            DemoScene::ModifierParade => "Modifier Parade",
            DemoScene::MushroomGarden => "Mushroom Garden",
            DemoScene::RobotFriend => "Robot Friend",
            DemoScene::AbstractSculpture => "Abstract Sculpture",
        }
    }

    /// Every demo, in menu order.
    pub open spec fn all_spec() -> Seq<DemoScene> {
        seq![
            DemoScene::PrimitiveGallery,
            DemoScene::BooleanSampler,
            DemoScene::ModifierParade,
            DemoScene::MushroomGarden,
            DemoScene::RobotFriend,
            DemoScene::AbstractSculpture,
        ]
    }

    /// Every demo, in menu order.
    pub fn all() -> (r: Vec<DemoScene>)
        ensures
            r@ == Self::all_spec(),
    {
        let r = vec![
            DemoScene::PrimitiveGallery,
            DemoScene::BooleanSampler,
            DemoScene::ModifierParade,
            DemoScene::MushroomGarden,
            DemoScene::RobotFriend,
            DemoScene::AbstractSculpture,
        ];
        assert(r@ =~= Self::all_spec());
        r
    }
}

/// The menu lists every demo exactly once.
pub proof fn law_all_demos_listed(d: DemoScene)
    ensures
        DemoScene::all_spec().contains(d),
        forall|i: int, j: int|
            0 <= i < j < DemoScene::all_spec().len() ==> DemoScene::all_spec()[i] != DemoScene::all_spec()[j],
{
    let s = DemoScene::all_spec();
    match d {
        DemoScene::PrimitiveGallery => assert(s[0] == d),
        DemoScene::BooleanSampler => assert(s[1] == d),
        DemoScene::ModifierParade => assert(s[2] == d),
        DemoScene::MushroomGarden => assert(s[3] == d),
        DemoScene::RobotFriend => assert(s[4] == d),
        DemoScene::AbstractSculpture => assert(s[5] == d),
    }
}

} // verus!
