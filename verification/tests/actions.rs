use dissonance::interaction::{Interactable, InteractionAction};

#[test]
fn every_built_in_action_has_its_label() {
    assert_eq!(InteractionAction::Examine.to_string(), "* Check");
    assert_eq!(InteractionAction::Take.to_string(), "* Take");
    assert_eq!(InteractionAction::Use.to_string(), "* Use");
    assert_eq!(InteractionAction::TurnOn.to_string(), "* Turn On");
    assert_eq!(InteractionAction::TurnOff.to_string(), "* Turn Off");
    assert_eq!(InteractionAction::Refuel.to_string(), "* Refuel");
    assert_eq!(InteractionAction::Talk.to_string(), "* Talk");
    assert_eq!(InteractionAction::Open.to_string(), "* Open");
    assert_eq!(InteractionAction::Close.to_string(), "* Close");
}

#[test]
fn a_custom_action_is_labelled_with_its_text() {
    assert_eq!(InteractionAction::Custom("Foo".to_string()).to_string(), "* Foo");
    assert_eq!(InteractionAction::Custom(String::new()).to_string(), "* ");
}

#[test]
fn labelling_is_repeatable() {
    let action = InteractionAction::Custom("Pet the dog".to_string());
    assert_eq!(action.to_string(), action.to_string());
}

#[test]
fn cloning_an_action_keeps_it() {
    let action = InteractionAction::Custom("Knock".to_string());
    assert_eq!(action.clone(), action);
    assert_eq!(InteractionAction::Open.clone(), InteractionAction::Open);
}

#[test]
fn the_default_interactable_can_only_be_examined() {
    let it = Interactable::default();
    assert_eq!(it.name, "Object");
    assert_eq!(it.actions, vec![InteractionAction::Examine]);
    assert_eq!(it.interaction_radius, None);
}
