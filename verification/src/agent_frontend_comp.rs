//! The fixed, ordered catalog of frontend components the frontend
//! developer builds, each owning its name and output path.

use vstd::prelude::*;

verus! {

/// One entry of the component catalog, in build order: the logo, the two
/// navigation components, the data-fetch hook, then the per-page content.
#[derive(Debug, Clone, Copy, PartialEq, Eq, Structural)]
pub enum BuildComponent {
    Logo,
    NavHeader,
    NavFooter,
    ReactHook,
    PageContent1,
    PageContent2,
}

/// The catalog in the order components are built.
pub open spec fn spec_component_catalog() -> Seq<BuildComponent> {
    seq![
        BuildComponent::Logo,
        BuildComponent::NavHeader,
        BuildComponent::NavFooter,
        BuildComponent::ReactHook,
        BuildComponent::PageContent1,
        BuildComponent::PageContent2,
    ]
}

impl BuildComponent {
    /// The component's display name.
    pub fn name(&self) -> (r: &'static str)
        ensures
            r@ == spec_component_name(*self),
    {
        match *self {
            BuildComponent::Logo => "Logo",
            BuildComponent::NavHeader => "NavHeader",
            BuildComponent::NavFooter => "NavFooter",
            BuildComponent::ReactHook => "ReactHook",
            BuildComponent::PageContent1 => "PageContent1",
            BuildComponent::PageContent2 => "PageContent2",
        }
    }

    /// The fixed relative location the component's source is stored at.
    pub fn filepath(&self) -> (r: String)
        ensures
            r@ == spec_component_filepath(*self),
    {
        match *self {
            BuildComponent::Logo => String::from_str("/src/components/shared/Logo.tsx"),
            BuildComponent::NavHeader => String::from_str("/src/components/shared/Navigation.tsx"),
            BuildComponent::NavFooter => String::from_str("/src/components/shared/Footer.tsx"),
            BuildComponent::ReactHook => String::from_str("/src/hooks/useCall.tsx"),
            BuildComponent::PageContent1 => String::from_str("/src/components/pages/PageOne.tsx"),
            BuildComponent::PageContent2 => String::from_str("/src/components/pages/PageTwo.tsx"),
        }
    }

    /// The whole catalog, in build order.
    pub fn all() -> (r: Vec<BuildComponent>)
        ensures
            r@ == spec_component_catalog(),
    {
        let mut v: Vec<BuildComponent> = Vec::new();
        v.push(BuildComponent::Logo);
        v.push(BuildComponent::NavHeader);
        v.push(BuildComponent::NavFooter);
        v.push(BuildComponent::ReactHook);
        v.push(BuildComponent::PageContent1);
        v.push(BuildComponent::PageContent2);
        proof {
            assert(v@ =~= spec_component_catalog());
        }
        v
    }
}

/// The component's display name.
pub open spec fn spec_component_name(c: BuildComponent) -> Seq<char> {
    match c {
        BuildComponent::Logo => "Logo"@,
        BuildComponent::NavHeader => "NavHeader"@,
        BuildComponent::NavFooter => "NavFooter"@,
        BuildComponent::ReactHook => "ReactHook"@,
        BuildComponent::PageContent1 => "PageContent1"@,
        BuildComponent::PageContent2 => "PageContent2"@,
    }
}

/// The fixed relative location the component's source is stored at.
pub open spec fn spec_component_filepath(c: BuildComponent) -> Seq<char> {
    match c {
        BuildComponent::Logo => "/src/components/shared/Logo.tsx"@,
        BuildComponent::NavHeader => "/src/components/shared/Navigation.tsx"@,
        BuildComponent::NavFooter => "/src/components/shared/Footer.tsx"@,
        BuildComponent::ReactHook => "/src/hooks/useCall.tsx"@,
        BuildComponent::PageContent1 => "/src/components/pages/PageOne.tsx"@,
        BuildComponent::PageContent2 => "/src/components/pages/PageTwo.tsx"@,
    }
}

/// Which page of the page list a per-page content component renders.
pub open spec fn spec_component_page_index(c: BuildComponent) -> Option<int> {
    match c {
        BuildComponent::PageContent1 => Some(0int),
        BuildComponent::PageContent2 => Some(1int),
        _ => None,
    }
}

} // verus!
