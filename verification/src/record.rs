//! The table of addresses that a finished deployment hands to its caller.

use vstd::prelude::*;
use crate::address::{checksum_text, Address};

verus! {

/// The addresses that an operator needs to join the service.
#[derive(Clone, Copy, Debug)]
pub struct ContractAddresses {
    pub service_manager: Address,
    pub registry_coordinator: Address,
    pub operator_state_retriever: Address,
    pub delegation_manager: Address,
    pub avs_directory: Address,
    pub operator: Address,
}

impl ContractAddresses {
    /// The six addresses in the order of the fields.
    pub open spec fn entries(&self) -> Seq<Address> {
        seq![
            self.service_manager,
            self.registry_coordinator,
            self.operator_state_retriever,
            self.delegation_manager,
            self.avs_directory,
            self.operator,
        ]
    }

    /// The rendering: a heading, then one labelled line for each address.
    pub open spec fn rendering(&self) -> Seq<char> {
        "Contract Addresses:\n"@
            + "  Service Manager:          "@ + checksum_text(self.service_manager@) + "\n"@
            + "  Registry Coordinator:     "@ + checksum_text(self.registry_coordinator@) + "\n"@
            + "  Operator State Retriever: "@ + checksum_text(self.operator_state_retriever@) + "\n"@
            + "  Delegation Manager:       "@ + checksum_text(self.delegation_manager@) + "\n"@
            + "  AVS Directory:            "@ + checksum_text(self.avs_directory@) + "\n"@
            + "  Operator:                 "@ + checksum_text(self.operator@) + "\n"@
    }

    /// Renders the record for a reader: each address on a line of its own,
    /// behind its label.
    pub fn render(&self) -> (result: String)
        ensures
            result@ == self.rendering(),
    {
        let mut text = String::from_str("Contract Addresses:\n");
        push_line(&mut text, "  Service Manager:          ", &self.service_manager);
        push_line(&mut text, "  Registry Coordinator:     ", &self.registry_coordinator);
        push_line(&mut text, "  Operator State Retriever: ", &self.operator_state_retriever);
        push_line(&mut text, "  Delegation Manager:       ", &self.delegation_manager);
        push_line(&mut text, "  AVS Directory:            ", &self.avs_directory);
        push_line(&mut text, "  Operator:                 ", &self.operator);
        text
    }

    /// Tells whether no address is zero and no two are the same.
    pub fn is_sound(&self) -> (result: bool)
        ensures
            result == self.sound(),
    {
        let all = [
            self.service_manager,
            self.registry_coordinator,
            self.operator_state_retriever,
            self.delegation_manager,
            self.avs_directory,
            self.operator,
        ];
        assert(all@ =~= self.entries());
        let mut i: usize = 0;
        while i < 6
            invariant
                i <= 6,
                all@ == self.entries(),
                forall|a: int| 0 <= a < i ==> !(#[trigger] self.entries()[a]).is_zero_spec(),
                forall|a: int, b: int|
                    0 <= a < i && a < b < 6 ==> (#[trigger] self.entries()[a])@ != (
                    #[trigger] self.entries()[b])@,
            decreases 6 - i,
        {
            if all[i].is_zero() {
                return false;
            }
            let mut j: usize = i + 1;
            while j < 6
                invariant
                    i < j <= 6,
                    all@ == self.entries(),
                    forall|b: int|
                        i < b < j ==> self.entries()[i as int]@ != (#[trigger] self.entries()[b])@,
                decreases 6 - j,
            {
                if all[i] == all[j] {
                    return false;
                }
                j = j + 1;
            }
            i = i + 1;
        }
        true
    }

    /// No address is zero and no two are the same.
    pub open spec fn sound(&self) -> bool {
        &&& forall|i: int| 0 <= i < 6 ==> !(#[trigger] self.entries()[i]).is_zero_spec()
        &&& forall|i: int, j: int|
            0 <= i < j < 6 ==> (#[trigger] self.entries()[i])@ != (#[trigger] self.entries()[j])@
    }
}

/// Adds one line to a rendering: the label, the address as checksummed text,
/// and a line end.
fn push_line(text: &mut String, label: &str, address: &Address)
    ensures
        final(text)@ == old(text)@ + label@ + checksum_text(address@) + "\n"@,
{
    let shown = address.checksum();
    text.append(label);
    text.append(shown.as_str());
    text.append("\n");
}

} // verus!
