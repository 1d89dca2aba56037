use vstd::prelude::*;

use crate::text::push_char;

verus! {

/// The message given where hardware scanning is not available.
pub open spec fn wia_unavailable_message() -> Seq<char> {
    "Hardware scanning via WIA is only available on Windows. On other platforms, drop image files into the 'waves' folder."@
}

/// Hardware scanning on platforms without WIA: always refused, with a message
/// that points the user to the `waves` folder.
pub fn scan_to_file(output_path: &str) -> (r: Result<(), String>)
    ensures
        r matches Err(msg) && msg@ == wia_unavailable_message(),
{
    Err(String::from_str(
        "Hardware scanning via WIA is only available on Windows. On other platforms, drop image files into the 'waves' folder.",
    ))
}

/// `s` with every double quote removed.
pub open spec fn without_quotes(s: Seq<char>) -> Seq<char>
    decreases s.len(),
{
    if s.len() == 0 {
        s
    } else {
        let rest = without_quotes(s.drop_last());
        if s.last() == '"' {
            rest
        } else {
            rest.push(s.last())
        }
    }
}

/// `path` with its double quotes removed, so that it can stand inside a
/// double-quoted PowerShell string.
pub fn sanitize_path(path: &str) -> (out: String)
    ensures
        out@ == without_quotes(path@),
{
    let n = path.unicode_len();
    let mut out = String::new();
    let mut i: usize = 0;
    while i < n
        invariant
            n == path@.len(),
            i <= n,
            out@ == without_quotes(path@.take(i as int)),
        decreases n - i,
    {
        let c = path.get_char(i);
        proof {
            assert(path@.take(i + 1).drop_last() =~= path@.take(i as int));
            assert(path@.take(i + 1).last() == c);
        }
        if c != '"' {
            push_char(&mut out, c);
        }
        i = i + 1;
    }
    proof {
        assert(path@.take(n as int) =~= path@);
    }
    out
}

/// The sanitised path holds no double quote, so it cannot end the PowerShell
/// string it is placed in; every other character is kept.
pub proof fn lemma_without_quotes(s: Seq<char>)
    ensures
        forall|i: int| 0 <= i < without_quotes(s).len() ==> #[trigger] without_quotes(s)[i] != '"',
        without_quotes(s).len() <= s.len(),
        (forall|i: int| 0 <= i < s.len() ==> #[trigger] s[i] != '"') ==> without_quotes(s) == s,
    decreases s.len(),
{
    if s.len() > 0 {
        lemma_without_quotes(s.drop_last());
        if forall|i: int| 0 <= i < s.len() ==> #[trigger] s[i] != '"' {
            assert forall|i: int| 0 <= i < s.drop_last().len() implies #[trigger] s.drop_last()[i] != '"' by {
                assert(s.drop_last()[i] == s[i]);
            }
            assert(s.drop_last().push(s.last()) =~= s);
        }
    }
}

/// The PowerShell text before the output path.
pub open spec fn wia_script_head() -> Seq<char> {
    "\n$mgr    = New-Object -ComObject WIA.DeviceManager\n$infos  = @($mgr.DeviceInfos | Where-Object { $_.Type -eq 1 })\nif ($infos.Count -eq 0) { Write-Error 'No WIA scanner found'; exit 1 }\n$dev    = $infos[0].Connect()\n$item   = $dev.Items.Item(1)\n$image  = $item.Transfer()\n$image.SaveFile(\""@
}

/// The PowerShell text after the output path.
pub open spec fn wia_script_tail() -> Seq<char> {
    "\")\n"@
}

/// The PowerShell script that captures from the first WIA scanner and saves
/// the image to `output_path` (with its double quotes removed).
pub fn wia_scan_script(output_path: &str) -> (script: String)
    ensures
        script@ == wia_script_head() + without_quotes(output_path@) + wia_script_tail(),
{
    let mut script = String::from_str(
        "\n$mgr    = New-Object -ComObject WIA.DeviceManager\n$infos  = @($mgr.DeviceInfos | Where-Object { $_.Type -eq 1 })\nif ($infos.Count -eq 0) { Write-Error 'No WIA scanner found'; exit 1 }\n$dev    = $infos[0].Connect()\n$item   = $dev.Items.Item(1)\n$image  = $item.Transfer()\n$image.SaveFile(\"",
    );
    let out = sanitize_path(output_path);
    script.append(out.as_str());
    script.append("\")\n");
    script
}

/// Why a hardware scan produced no image.
pub open spec fn wia_verdict(script_succeeded: bool, output_exists: bool) -> Result<(), Seq<char>> {
    if !script_succeeded {
        Err("WIA scan script exited with failure"@)
    } else if !output_exists {
        Err("Scan appeared to succeed but output file was not created"@)
    } else {
        Ok(())
    }
}

/// Judges a finished scan: the script must have succeeded and the image file
/// must exist.
pub fn wia_scan_verdict(script_succeeded: bool, output_exists: bool) -> (r: Result<(), String>)
    ensures
        match (r, wia_verdict(script_succeeded, output_exists)) {
            (Ok(()), Ok(())) => true,
            (Err(m), Err(e)) => m@ == e,
            _ => false,
        },
{
    if !script_succeeded {
        Err(String::from_str("WIA scan script exited with failure"))
    } else if !output_exists {
        Err(String::from_str("Scan appeared to succeed but output file was not created"))
    } else {
        Ok(())
    }
}

} // verus!
